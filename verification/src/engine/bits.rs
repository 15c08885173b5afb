//! Vulkan bit masks, as `ash` defines them.
//!
//! Nothing in this file is proved. Each function hands a mask to `ash` or reads
//! one from it, and its contract repeats what the source of `ash` shows.

use vstd::prelude::*;

verus! {

/// Tells whether a queue family's capability mask holds the graphics bit.
///
/// Calls `ash::vk::QueueFlags::subset` with `ash::vk::QUEUE_GRAPHICS_BIT`, after
/// `from_flags_truncate` has cut the mask to the four queue bits that `ash` knows.
/// The graphics bit is the lowest one, so cutting does not touch it.
#[verifier::external_body]
pub(crate) fn queue_mask_has_graphics(mask: u32) -> (found: bool)
    ensures
        found == (mask & 0x1 == 0x1),
{
    ash::vk::QueueFlags::from_flags_truncate(mask).subset(ash::vk::QUEUE_GRAPHICS_BIT)
}

/// Tells whether a mask of surface transforms holds the identity transform.
///
/// Calls `ash::vk::SurfaceTransformFlagsKHR::subset` with
/// `ash::vk::SURFACE_TRANSFORM_IDENTITY_BIT_KHR`, the lowest bit, after
/// `from_flags_truncate` has cut the mask to the nine transform bits.
#[verifier::external_body]
pub(crate) fn transform_mask_has_identity(mask: u32) -> (found: bool)
    ensures
        found == (mask & 0x1 == 0x1),
{
    ash::vk::SurfaceTransformFlagsKHR::from_flags_truncate(mask)
        .subset(ash::vk::SURFACE_TRANSFORM_IDENTITY_BIT_KHR)
}

/// The mask of the identity surface transform: the bits of
/// `ash::vk::SURFACE_TRANSFORM_IDENTITY_BIT_KHR`, read with `flags`.
#[verifier::external_body]
pub(crate) fn identity_transform_bits() -> (bits: u32)
    ensures
        bits == 0x1,
{
    ash::vk::SURFACE_TRANSFORM_IDENTITY_BIT_KHR.flags()
}

/// The mask of the vertex shader stage: the bits of
/// `ash::vk::SHADER_STAGE_VERTEX_BIT`, read with `flags`.
#[verifier::external_body]
pub(crate) fn vertex_stage_bits() -> (bits: u32)
    ensures
        bits == 0x1,
{
    ash::vk::SHADER_STAGE_VERTEX_BIT.flags()
}

/// The mask of the fragment shader stage: the bits of
/// `ash::vk::SHADER_STAGE_FRAGMENT_BIT`, read with `flags`.
#[verifier::external_body]
pub(crate) fn fragment_stage_bits() -> (bits: u32)
    ensures
        bits == 0x10,
{
    ash::vk::SHADER_STAGE_FRAGMENT_BIT.flags()
}

/// The write mask that lets all four colour channels through: the bits of
/// `ash::vk::ColorComponentFlags::all()`.
#[verifier::external_body]
pub(crate) fn all_color_components_bits() -> (bits: u32)
    ensures
        bits == 0xf,
{
    ash::vk::ColorComponentFlags::all().flags()
}

/// The access mask for reading and writing a colour attachment: the union, by the
/// `|` that `ash` gives `AccessFlags`, of `ACCESS_COLOR_ATTACHMENT_READ_BIT`
/// (bit 7) and `ACCESS_COLOR_ATTACHMENT_WRITE_BIT` (bit 8).
#[verifier::external_body]
pub(crate) fn color_attachment_access_bits() -> (bits: u32)
    ensures
        bits == 0x180,
{
    (ash::vk::ACCESS_COLOR_ATTACHMENT_READ_BIT | ash::vk::ACCESS_COLOR_ATTACHMENT_WRITE_BIT).flags()
}

/// The mask of an attachment with nothing special about it: the bits of
/// `ash::vk::AttachmentDescriptionFlags::empty()`, none.
#[verifier::external_body]
pub(crate) fn plain_attachment_bits() -> (bits: u32)
    ensures
        bits == 0,
{
    ash::vk::AttachmentDescriptionFlags::empty().flags()
}

/// The mask of the reports that the debug callback takes: the union, by the `|`
/// that `ash` gives `DebugReportFlagsEXT`, of `DEBUG_REPORT_ERROR_BIT_EXT`
/// (bit 3), `DEBUG_REPORT_WARNING_BIT_EXT` (bit 1) and
/// `DEBUG_REPORT_PERFORMANCE_WARNING_BIT_EXT` (bit 2).
#[verifier::external_body]
pub(crate) fn problem_report_bits() -> (bits: u32)
    ensures
        bits == 0xe,
{
    (ash::vk::DEBUG_REPORT_ERROR_BIT_EXT | ash::vk::DEBUG_REPORT_WARNING_BIT_EXT
        | ash::vk::DEBUG_REPORT_PERFORMANCE_WARNING_BIT_EXT).flags()
}

} // verus!
