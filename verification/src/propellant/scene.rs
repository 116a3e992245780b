//! Scheduling of the systems that run on a scene.
use vstd::prelude::*;

verus! {

/// How often a system wants to be updated. Durations are in nanoseconds.
#[derive(Debug, Clone, Copy, PartialEq, Eq)]
pub enum UpdateFrequency {
    /// Once per frame, with the frame's duration.
    PerFrame,
    /// On a fixed time step.
    Fixed(u128),
}

/// The updates a system gets for one frame: how many, each of which
/// duration, and the time left over for the next frame.
#[derive(Debug, Clone, Copy, PartialEq, Eq)]
pub struct UpdatePlan {
    pub update_count: u128,
    pub step: u128,
    pub idle_time: u128,
}

/// Plans the updates of a system for a frame that lasted `delta_time`,
/// when `idle_time` was left over from earlier frames. A per-frame system
/// is updated once with the frame's duration; a fixed-step system is
/// updated with its step as long as a whole step of time is available, and
/// keeps the rest for later.
pub fn plan_update(frequency: UpdateFrequency, idle_time: u128, delta_time: u128) -> (plan: UpdatePlan)
    requires
        frequency matches UpdateFrequency::Fixed(step) ==> step > 0 && idle_time + delta_time
            <= u128::MAX,
    ensures
        frequency is PerFrame ==> plan == (UpdatePlan {
            update_count: 1,
            step: delta_time,
            idle_time,
        }),
        frequency matches UpdateFrequency::Fixed(step) ==> {
            &&& plan.step == step
            &&& plan.update_count * step + plan.idle_time == idle_time + delta_time
            &&& plan.idle_time < step
        },
{
    match frequency {
        UpdateFrequency::PerFrame => UpdatePlan { update_count: 1, step: delta_time, idle_time },
        UpdateFrequency::Fixed(step) => {
            let available = idle_time + delta_time;
            let update_count = available / step;
            let rest = available % step;
            proof {
                vstd::arithmetic::div_mod::lemma_fundamental_div_mod(available as int, step as int);
                assert(update_count * step == (available / step) * step) by (nonlinear_arith)
                    requires
                        update_count == available / step,
                ;
            }
            UpdatePlan { update_count, step, idle_time: rest }
        },
    }
}

} // verus!
