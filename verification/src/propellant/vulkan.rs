//! Decisions taken while setting up and driving Vulkan: device and queue
//! selection, swapchain parameters, buffer layouts and frame pacing.
pub mod buffer;
pub mod instance;
pub mod physical_devices;
pub mod queue;
pub mod queue_family_indices;
pub mod reference;
pub mod swapchain;
pub mod synchronization;
pub mod utils;
pub mod vk;

use vstd::prelude::*;

verus! {

/// Number of frames that may be recorded while earlier ones are in flight.
pub const MAX_FRAMES_IN_FLIGHTS: usize = 2;

} // verus!
