//! Values and helpers of the `ash` Vulkan bindings that the engine reads.
//!
//! Each function here calls `ash` (or, for UTF-8 decoding, std) and its
//! contract restates what the called item is defined as in that source.
use vstd::prelude::*;
use vstd::utf8::{decode_utf8, valid_utf8};

verus! {

/// `ash::vk::make_api_version`: packs variant, major, minor and patch into
/// one version number, at bits 29, 22, 12 and 0.
#[verifier::external_body]
pub(crate) fn make_api_version(variant: u32, major: u32, minor: u32, patch: u32) -> (version: u32)
    ensures
        version == (variant << 29u32) | (major << 22u32) | (minor << 12u32) | patch,
{
    ash::vk::make_api_version(variant, major, minor, patch)
}

/// `ash::vk::api_version_major`: the 7 bits of a version from bit 22.
#[verifier::external_body]
pub(crate) fn api_version_major(version: u32) -> (major: u32)
    ensures
        major == (version >> 22u32) & 0x7fu32,
{
    ash::vk::api_version_major(version)
}

/// `ash::vk::api_version_minor`: the 10 bits of a version from bit 12.
#[verifier::external_body]
pub(crate) fn api_version_minor(version: u32) -> (minor: u32)
    ensures
        minor == (version >> 12u32) & 0x3ffu32,
{
    ash::vk::api_version_minor(version)
}

/// `ash::vk::api_version_patch`: the low 12 bits of a version.
#[verifier::external_body]
pub(crate) fn api_version_patch(version: u32) -> (patch: u32)
    ensures
        patch == version & 0xfffu32,
{
    ash::vk::api_version_patch(version)
}

} // verus!

verus! {

/// What `String::from_utf8` displays as its error for these bytes.
pub uninterp spec fn utf8_error_text(bytes: Seq<u8>) -> Seq<char>;

/// `String::from_utf8`: the decoded text when the bytes are valid UTF-8,
/// else the text that the error displays.
#[verifier::external_body]
pub(crate) fn string_from_utf8(bytes: Vec<u8>) -> (text: Result<String, String>)
    ensures
        text is Ok <==> valid_utf8(bytes@),
        text matches Ok(s) ==> s@ == decode_utf8(bytes@),
        text matches Err(e) ==> e@ == utf8_error_text(bytes@),
{
    String::from_utf8(bytes).map_err(|e| format!("{e}"))
}

} // verus!

verus! {

/// Bit of a queue family that supports graphics operations.
pub const QUEUE_GRAPHICS_BIT: u32 = 1;

/// Bit of a queue family that supports compute operations.
pub const QUEUE_COMPUTE_BIT: u32 = 2;

/// Bit of a queue family that supports transfer operations.
pub const QUEUE_TRANSFER_BIT: u32 = 4;

/// `ash::vk::QueueFlags::GRAPHICS`, as raw bits.
#[verifier::external_body]
pub(crate) fn queue_flags_graphics() -> (bits: u32)
    ensures
        bits == QUEUE_GRAPHICS_BIT,
{
    ash::vk::QueueFlags::GRAPHICS.as_raw()
}

/// `ash::vk::QueueFlags::COMPUTE`, as raw bits.
#[verifier::external_body]
pub(crate) fn queue_flags_compute() -> (bits: u32)
    ensures
        bits == QUEUE_COMPUTE_BIT,
{
    ash::vk::QueueFlags::COMPUTE.as_raw()
}

/// `ash::vk::QueueFlags::TRANSFER`, as raw bits.
#[verifier::external_body]
pub(crate) fn queue_flags_transfer() -> (bits: u32)
    ensures
        bits == QUEUE_TRANSFER_BIT,
{
    ash::vk::QueueFlags::TRANSFER.as_raw()
}

} // verus!

verus! {

/// Raw value of the `B8G8R8A8_SRGB` image format.
pub const FORMAT_B8G8R8A8_SRGB: i32 = 50;

/// Raw value of the `SRGB_NONLINEAR` color space.
pub const COLOR_SPACE_SRGB_NONLINEAR: i32 = 0;

/// Raw value of the `MAILBOX` present mode.
pub const PRESENT_MODE_MAILBOX: i32 = 1;

/// Raw value of the `FIFO` present mode, which every device supports.
pub const PRESENT_MODE_FIFO: i32 = 2;

/// Raw value of the `FIFO_RELAXED` present mode.
pub const PRESENT_MODE_FIFO_RELAXED: i32 = 3;

/// `ash::vk::Format::B8G8R8A8_SRGB`, as its raw value.
#[verifier::external_body]
pub(crate) fn format_b8g8r8a8_srgb() -> (raw: i32)
    ensures
        raw == FORMAT_B8G8R8A8_SRGB,
{
    ash::vk::Format::B8G8R8A8_SRGB.as_raw()
}

/// `ash::vk::ColorSpaceKHR::SRGB_NONLINEAR`, as its raw value.
#[verifier::external_body]
pub(crate) fn color_space_srgb_nonlinear() -> (raw: i32)
    ensures
        raw == COLOR_SPACE_SRGB_NONLINEAR,
{
    ash::vk::ColorSpaceKHR::SRGB_NONLINEAR.as_raw()
}

/// `ash::vk::PresentModeKHR::MAILBOX`, as its raw value.
#[verifier::external_body]
pub(crate) fn present_mode_mailbox() -> (raw: i32)
    ensures
        raw == PRESENT_MODE_MAILBOX,
{
    ash::vk::PresentModeKHR::MAILBOX.as_raw()
}

/// `ash::vk::PresentModeKHR::FIFO`, as its raw value.
#[verifier::external_body]
pub(crate) fn present_mode_fifo() -> (raw: i32)
    ensures
        raw == PRESENT_MODE_FIFO,
{
    ash::vk::PresentModeKHR::FIFO.as_raw()
}

/// `ash::vk::PresentModeKHR::FIFO_RELAXED`, as its raw value.
#[verifier::external_body]
pub(crate) fn present_mode_fifo_relaxed() -> (raw: i32)
    ensures
        raw == PRESENT_MODE_FIFO_RELAXED,
{
    ash::vk::PresentModeKHR::FIFO_RELAXED.as_raw()
}

} // verus!

verus! {

/// `ash::vk::KHR_SWAPCHAIN_NAME`, as text.
#[verifier::external_body]
pub(crate) fn khr_swapchain_name() -> (name: String)
    ensures
        name@ == "VK_KHR_swapchain"@,
{
    String::from_utf8_lossy(ash::vk::KHR_SWAPCHAIN_NAME.to_bytes()).into_owned()
}

/// `ash::vk::EXT_DESCRIPTOR_INDEXING_NAME`, as text.
#[verifier::external_body]
pub(crate) fn ext_descriptor_indexing_name() -> (name: String)
    ensures
        name@ == "VK_EXT_descriptor_indexing"@,
{
    String::from_utf8_lossy(ash::vk::EXT_DESCRIPTOR_INDEXING_NAME.to_bytes()).into_owned()
}

} // verus!

verus! {

/// Raw value of the `SUBOPTIMAL_KHR` result.
pub const RESULT_SUBOPTIMAL_KHR: i32 = 1_000_001_003;

/// Raw value of the `ERROR_OUT_OF_DATE_KHR` result.
pub const RESULT_ERROR_OUT_OF_DATE_KHR: i32 = -1_000_001_004;

/// `ash::vk::Result::SUBOPTIMAL_KHR`, as its raw value.
#[verifier::external_body]
pub(crate) fn result_suboptimal() -> (raw: i32)
    ensures
        raw == RESULT_SUBOPTIMAL_KHR,
{
    ash::vk::Result::SUBOPTIMAL_KHR.as_raw()
}

/// `ash::vk::Result::ERROR_OUT_OF_DATE_KHR`, as its raw value.
#[verifier::external_body]
pub(crate) fn result_out_of_date() -> (raw: i32)
    ensures
        raw == RESULT_ERROR_OUT_OF_DATE_KHR,
{
    ash::vk::Result::ERROR_OUT_OF_DATE_KHR.as_raw()
}

} // verus!
