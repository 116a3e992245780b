//! Choice of the swapchain parameters.
use vstd::prelude::*;

use crate::propellant::vulkan::vk;

verus! {

/// A surface format the device offers: raw format and color space values.
#[derive(Debug, Clone, Copy, PartialEq, Eq)]
pub struct SurfaceFormat {
    pub format: i32,
    pub color_space: i32,
}

/// A width and height in pixels.
#[derive(Debug, Clone, Copy, PartialEq, Eq)]
pub struct Extent2D {
    pub width: u32,
    pub height: u32,
}

/// What the engine reads of the surface capabilities.
#[derive(Debug, Clone, Copy, PartialEq, Eq)]
pub struct SurfaceCapabilities {
    pub min_image_count: u32,
    /// 0 when there is no maximum.
    pub max_image_count: u32,
    /// `u32::MAX` wide when the window decides the extent.
    pub current_extent: Extent2D,
    pub min_image_extent: Extent2D,
    pub max_image_extent: Extent2D,
}

/// The preferred format: 8 bit BGRA in sRGB.
pub open spec fn is_preferred_format(f: SurfaceFormat) -> bool {
    f.format == vk::FORMAT_B8G8R8A8_SRGB && f.color_space == vk::COLOR_SPACE_SRGB_NONLINEAR
}

/// Chooses the surface format of the swapchain.
pub fn get_swapchain_surface_format(formats: &[SurfaceFormat]) -> (format: SurfaceFormat)
    requires
        formats@.len() > 0,
    ensures
        (exists|i: int| 0 <= i < formats@.len() && is_preferred_format(#[trigger] formats@[i]))
            ==> is_preferred_format(format),
        (forall|i: int| 0 <= i < formats@.len() ==> !is_preferred_format(#[trigger] formats@[i]))
            ==> format == formats@[0],
        exists|i: int|
            0 <= i < formats@.len() && format == formats@[i] && (is_preferred_format(format)
                ==> forall|j: int| 0 <= j < i ==> !is_preferred_format(#[trigger] formats@[j])),
{
    let preferred_format = vk::format_b8g8r8a8_srgb();
    let preferred_space = vk::color_space_srgb_nonlinear();
    let mut i: usize = 0;
    while i < formats.len()
        invariant
            i <= formats@.len(),
            preferred_format == vk::FORMAT_B8G8R8A8_SRGB,
            preferred_space == vk::COLOR_SPACE_SRGB_NONLINEAR,
            forall|j: int| 0 <= j < i ==> !is_preferred_format(#[trigger] formats@[j]),
        decreases formats@.len() - i,
    {
        if formats[i].format == preferred_format && formats[i].color_space == preferred_space {
            return formats[i];
        }
        i = i + 1;
    }
    assert(is_preferred_format(formats@[0]) ==> false);
    formats[0]
}

/// The present mode chosen: mailbox when offered, else relaxed FIFO when
/// offered, else FIFO, which every device offers.
pub open spec fn spec_present_mode(modes: Seq<i32>) -> i32 {
    if modes.contains(vk::PRESENT_MODE_MAILBOX) {
        vk::PRESENT_MODE_MAILBOX
    } else if modes.contains(vk::PRESENT_MODE_FIFO_RELAXED) {
        vk::PRESENT_MODE_FIFO_RELAXED
    } else {
        vk::PRESENT_MODE_FIFO
    }
}

/// Whether `modes` holds `mode`.
fn contains_mode(modes: &[i32], mode: i32) -> (found: bool)
    ensures
        found == modes@.contains(mode),
{
    let mut i: usize = 0;
    while i < modes.len()
        invariant
            i <= modes@.len(),
            forall|j: int| 0 <= j < i ==> modes@[j] != mode,
        decreases modes@.len() - i,
    {
        if modes[i] == mode {
            return true;
        }
        i = i + 1;
    }
    false
}

/// Chooses the present mode of the swapchain among those offered.
pub fn get_swapchain_present_mode(present_modes: &[i32]) -> (mode: i32)
    ensures
        mode == spec_present_mode(present_modes@),
{
    let mailbox = vk::present_mode_mailbox();
    let fifo_relaxed = vk::present_mode_fifo_relaxed();
    if contains_mode(present_modes, mailbox) {
        mailbox
    } else if contains_mode(present_modes, fifo_relaxed) {
        fifo_relaxed
    } else {
        vk::present_mode_fifo()
    }
}

/// `value` brought within `min..=max`.
pub open spec fn clamp(value: u32, min: u32, max: u32) -> u32 {
    if value < min {
        min
    } else if value > max {
        max
    } else {
        value
    }
}

/// The extent of the swapchain: the surface's current extent, or, when the
/// surface leaves it to the window, the window size clamped to the allowed
/// range.
pub open spec fn spec_extent(window: Extent2D, capabilities: SurfaceCapabilities) -> Extent2D {
    if capabilities.current_extent.width != u32::MAX {
        capabilities.current_extent
    } else {
        Extent2D {
            width: clamp(
                window.width,
                capabilities.min_image_extent.width,
                capabilities.max_image_extent.width,
            ),
            height: clamp(
                window.height,
                capabilities.min_image_extent.height,
                capabilities.max_image_extent.height,
            ),
        }
    }
}

/// Chooses the extent of the swapchain for a window of the given size.
pub fn get_swapchain_extent(window: Extent2D, capabilities: SurfaceCapabilities) -> (extent: Extent2D)
    requires
        capabilities.current_extent.width == u32::MAX ==> capabilities.min_image_extent.width
            <= capabilities.max_image_extent.width && capabilities.min_image_extent.height
            <= capabilities.max_image_extent.height,
    ensures
        extent == spec_extent(window, capabilities),
{
    if capabilities.current_extent.width != u32::MAX {
        capabilities.current_extent
    } else {
        Extent2D {
            width: clamp_u32(
                window.width,
                capabilities.min_image_extent.width,
                capabilities.max_image_extent.width,
            ),
            height: clamp_u32(
                window.height,
                capabilities.min_image_extent.height,
                capabilities.max_image_extent.height,
            ),
        }
    }
}

/// Brings `value` within `min..=max`.
fn clamp_u32(value: u32, min: u32, max: u32) -> (r: u32)
    requires
        min <= max,
    ensures
        r == clamp(value, min, max),
{
    if value < min {
        min
    } else if value > max {
        max
    } else {
        value
    }
}

/// The number of swapchain images: one more than the minimum, capped by
/// the maximum when there is one.
pub open spec fn spec_image_count(capabilities: SurfaceCapabilities) -> u32 {
    let wanted = (capabilities.min_image_count + 1) as u32;
    if capabilities.max_image_count != 0 && capabilities.max_image_count < wanted {
        capabilities.max_image_count
    } else {
        wanted
    }
}

/// Chooses how many images the swapchain holds.
pub fn swapchain_image_count(capabilities: SurfaceCapabilities) -> (count: u32)
    requires
        capabilities.min_image_count < u32::MAX,
    ensures
        count == spec_image_count(capabilities),
{
    let mut image_count = capabilities.min_image_count + 1;
    if capabilities.max_image_count != 0 {
        image_count = if capabilities.max_image_count < image_count {
            capabilities.max_image_count
        } else {
            image_count
        };
    }
    image_count
}

/// Law: the present mode is chosen by preference. Mailbox is taken
/// whenever it is offered, whatever else is; relaxed FIFO when it is offered
/// and mailbox is not; FIFO otherwise. The mode chosen is always one that
/// is offered, or FIFO, which every device supports.
pub proof fn lemma_present_mode_preference(modes: Seq<i32>)
    ensures
        modes.contains(vk::PRESENT_MODE_MAILBOX) ==> spec_present_mode(modes)
            == vk::PRESENT_MODE_MAILBOX,
        !modes.contains(vk::PRESENT_MODE_MAILBOX) && modes.contains(vk::PRESENT_MODE_FIFO_RELAXED)
            ==> spec_present_mode(modes) == vk::PRESENT_MODE_FIFO_RELAXED,
        !modes.contains(vk::PRESENT_MODE_MAILBOX) && !modes.contains(vk::PRESENT_MODE_FIFO_RELAXED)
            ==> spec_present_mode(modes) == vk::PRESENT_MODE_FIFO,
        modes.contains(spec_present_mode(modes)) || spec_present_mode(modes)
            == vk::PRESENT_MODE_FIFO,
{
}

/// Law: when the surface fixes its extent, the swapchain takes it as is.
pub proof fn lemma_extent_follows_surface(window: Extent2D, capabilities: SurfaceCapabilities)
    requires
        capabilities.current_extent.width != u32::MAX,
    ensures
        spec_extent(window, capabilities) == capabilities.current_extent,
{
}

/// Law: when the surface leaves the extent to the window, the swapchain
/// takes the window size brought within the allowed range: each side lies
/// between its minimum and maximum, equals the window's side when that is
/// in range, and is the nearest bound when it is not.
pub proof fn lemma_extent_is_clamped_window(window: Extent2D, capabilities: SurfaceCapabilities)
    requires
        capabilities.current_extent.width == u32::MAX,
        capabilities.min_image_extent.width <= capabilities.max_image_extent.width,
        capabilities.min_image_extent.height <= capabilities.max_image_extent.height,
    ensures
        capabilities.min_image_extent.width <= spec_extent(window, capabilities).width
            <= capabilities.max_image_extent.width,
        capabilities.min_image_extent.height <= spec_extent(window, capabilities).height
            <= capabilities.max_image_extent.height,
        capabilities.min_image_extent.width <= window.width <= capabilities.max_image_extent.width
            ==> spec_extent(window, capabilities).width == window.width,
        capabilities.min_image_extent.height <= window.height
            <= capabilities.max_image_extent.height ==> spec_extent(window, capabilities).height
            == window.height,
        window.width < capabilities.min_image_extent.width ==> spec_extent(
            window,
            capabilities,
        ).width == capabilities.min_image_extent.width,
        window.width > capabilities.max_image_extent.width ==> spec_extent(
            window,
            capabilities,
        ).width == capabilities.max_image_extent.width,
        window.height < capabilities.min_image_extent.height ==> spec_extent(
            window,
            capabilities,
        ).height == capabilities.min_image_extent.height,
        window.height > capabilities.max_image_extent.height ==> spec_extent(
            window,
            capabilities,
        ).height == capabilities.max_image_extent.height,
{
}

/// Law: the swapchain asks for one image more than the minimum, unless the
/// surface caps the count lower, in which case it asks for the cap; it never
/// asks for more than the cap, nor for more than one above the minimum.
pub proof fn lemma_image_count_bounds(capabilities: SurfaceCapabilities)
    requires
        capabilities.min_image_count < u32::MAX,
    ensures
        spec_image_count(capabilities) <= capabilities.min_image_count + 1,
        capabilities.max_image_count != 0 ==> spec_image_count(capabilities)
            <= capabilities.max_image_count,
        capabilities.max_image_count == 0 || capabilities.max_image_count
            > capabilities.min_image_count ==> spec_image_count(capabilities)
            == capabilities.min_image_count + 1,
        capabilities.max_image_count != 0 && capabilities.max_image_count
            <= capabilities.min_image_count ==> spec_image_count(capabilities)
            == capabilities.max_image_count,
{
}

/// The image to render to next, and whether the swapchain no longer
/// matches the surface exactly and should be recreated.
#[derive(Debug, Clone, Copy, PartialEq, Eq)]
pub struct VkSwapchainImageAcquireResult {
    pub image_index: usize,
    pub suboptimal: bool,
}

} // verus!
