//! The renderer's passes and what it does with the outcome of a frame.
use vstd::prelude::*;

use crate::propellant::vulkan::vk;

verus! {

/// Color pass drawn on top of the geometry buffer; it records nothing yet.
pub struct ColorPass;

/// Post processing pass after the other passes; it records nothing yet.
pub struct PostProcessingPass;

/// Why a frame could not be rendered.
#[derive(Debug, Clone, Copy, PartialEq, Eq)]
pub enum RenderError {
    /// The world lacks a component the renderer needs.
    MissingComponent { component: &'static str },
    /// A Vulkan call failed, with this raw result code.
    Vulkan { error: i32 },
}

/// What the renderer does after a frame.
#[derive(Debug, Clone, Copy, PartialEq, Eq)]
pub enum FrameFollowUp {
    /// Nothing: the frame was presented.
    Done,
    /// Ask the engine to recreate the swapchain.
    RecreateSwapchain,
    /// Report the error and go on.
    Report,
}

/// The follow-up of a frame: a swapchain that is suboptimal or out of date
/// is recreated, other failures are reported.
pub open spec fn spec_follow_up(outcome: Result<(), RenderError>) -> FrameFollowUp {
    match outcome {
        Ok(()) => FrameFollowUp::Done,
        Err(RenderError::Vulkan { error }) => if error == vk::RESULT_SUBOPTIMAL_KHR || error
            == vk::RESULT_ERROR_OUT_OF_DATE_KHR {
            FrameFollowUp::RecreateSwapchain
        } else {
            FrameFollowUp::Report
        },
        Err(_) => FrameFollowUp::Report,
    }
}

/// Decides what follows a rendered (or failed) frame.
pub fn follow_up(outcome: &Result<(), RenderError>) -> (next: FrameFollowUp)
    ensures
        next == spec_follow_up(*outcome),
{
    match outcome {
        Ok(()) => FrameFollowUp::Done,
        Err(RenderError::Vulkan { error }) => {
            if *error == vk::result_suboptimal() || *error == vk::result_out_of_date() {
                FrameFollowUp::RecreateSwapchain
            } else {
                FrameFollowUp::Report
            }
        },
        Err(_) => FrameFollowUp::Report,
    }
}

/// The outcome of a presented frame: an error when the swapchain reported
/// that it is suboptimal, so that it gets recreated.
pub fn frame_outcome(suboptimal: bool) -> (outcome: Result<(), RenderError>)
    ensures
        suboptimal ==> outcome == Err::<(), RenderError>(
            RenderError::Vulkan { error: vk::RESULT_SUBOPTIMAL_KHR },
        ),
        !suboptimal ==> outcome == Ok::<(), RenderError>(()),
{
    if suboptimal {
        Err(RenderError::Vulkan { error: vk::result_suboptimal() })
    } else {
        Ok(())
    }
}

/// Law: a presented frame needs nothing more; a swapchain reported
/// suboptimal or out of date is recreated, and every other failure, a
/// missing component or another Vulkan error, is reported and never
/// mistaken for success. In particular a frame whose image was acquired
/// suboptimal leads to a swapchain recreation.
pub proof fn lemma_frame_follow_up(error: i32, component: &'static str)
    ensures
        spec_follow_up(Ok(())) == FrameFollowUp::Done,
        (spec_follow_up(Err(RenderError::Vulkan { error })) == FrameFollowUp::RecreateSwapchain)
            <==> (error == vk::RESULT_SUBOPTIMAL_KHR || error == vk::RESULT_ERROR_OUT_OF_DATE_KHR),
        spec_follow_up(Err(RenderError::Vulkan { error })) != FrameFollowUp::Done,
        spec_follow_up(Err(RenderError::MissingComponent { component })) == FrameFollowUp::Report,
        spec_follow_up(Err(RenderError::Vulkan { error: vk::RESULT_SUBOPTIMAL_KHR }))
            == FrameFollowUp::RecreateSwapchain,
{
}

} // verus!
