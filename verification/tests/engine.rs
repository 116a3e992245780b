use supernova::application::display_image;
use supernova::propellant::renderer::{follow_up, frame_outcome, FrameFollowUp, RenderError};
use supernova::propellant::scene::{plan_update, UpdateFrequency, UpdatePlan};

#[test]
fn per_frame_systems_update_once() {
    let plan = plan_update(UpdateFrequency::PerFrame, 7, 16_000_000);
    assert_eq!(plan, UpdatePlan { update_count: 1, step: 16_000_000, idle_time: 7 });
}

#[test]
fn fixed_step_systems_catch_up() {
    let plan = plan_update(UpdateFrequency::Fixed(10), 3, 25);
    assert_eq!(plan, UpdatePlan { update_count: 2, step: 10, idle_time: 8 });
    let plan = plan_update(UpdateFrequency::Fixed(10), 0, 9);
    assert_eq!(plan, UpdatePlan { update_count: 0, step: 10, idle_time: 9 });
    let plan = plan_update(UpdateFrequency::Fixed(10), 5, 5);
    assert_eq!(plan, UpdatePlan { update_count: 1, step: 10, idle_time: 0 });
}

#[test]
fn frame_follow_up() {
    assert_eq!(follow_up(&Ok(())), FrameFollowUp::Done);
    assert_eq!(follow_up(&frame_outcome(true)), FrameFollowUp::RecreateSwapchain);
    assert_eq!(frame_outcome(true), Err(RenderError::Vulkan { error: 1_000_001_003 }));
    assert_eq!(frame_outcome(false), Ok(()));
    assert_eq!(follow_up(&Err(RenderError::Vulkan { error: -1_000_001_004 })), FrameFollowUp::RecreateSwapchain);
    assert_eq!(follow_up(&Err(RenderError::Vulkan { error: -4 })), FrameFollowUp::Report);
    assert_eq!(follow_up(&Err(RenderError::MissingComponent { component: "Main Camera" })), FrameFollowUp::Report);
}

#[test]
fn loading_screen_is_filled() {
    let mut pixels = vec![0u32; 12];
    display_image(&mut pixels);
    assert!(pixels.iter().all(|p| *p == 0x00ff_6464));
}
