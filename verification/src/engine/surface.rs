//! What the presentation surface reports, and what the renderer picks from it.

use crate::engine::bits::{identity_transform_bits, transform_mask_has_identity};
use vstd::prelude::*;

verus! {

/// A size in pixels.
#[derive(Clone, Copy, Debug, PartialEq, Eq, Structural)]
pub struct Extent2D {
    pub width: u32,
    pub height: u32,
}

/// A pixel format. Only the two formats that the selection rules speak of have a
/// name; every other one is carried by its Vulkan code.
#[derive(Clone, Copy, Debug, PartialEq, Eq, Structural)]
pub enum Format {
    /// The adapter accepts any format.
    Undefined,
    /// Eight bits each of blue, green and red, unsigned normalised.
    B8g8r8Unorm,
    /// Any other format, by its code.
    Other(i32),
}

/// A colour space.
#[derive(Clone, Copy, Debug, PartialEq, Eq, Structural)]
pub enum ColorSpace {
    SrgbNonlinear,
    /// Any other colour space, by its code.
    Other(i32),
}

/// A format together with the colour space it is shown in.
#[derive(Clone, Copy, Debug, PartialEq, Eq, Structural)]
pub struct SurfaceFormat {
    pub format: Format,
    pub color_space: ColorSpace,
}

/// How finished images reach the display.
#[derive(Clone, Copy, Debug, PartialEq, Eq, Structural)]
pub enum PresentMode {
    Immediate,
    Mailbox,
    Fifo,
    FifoRelaxed,
}

/// The part of a surface's capabilities that the swapchain is negotiated from.
/// Transforms are Vulkan bit masks.
#[derive(Clone, Copy, Debug, PartialEq, Eq, Structural)]
pub struct SurfaceCapabilities {
    pub min_image_count: u32,
    /// Zero when the adapter sets no upper limit.
    pub max_image_count: u32,
    pub current_extent: Extent2D,
    pub supported_transforms: u32,
    pub current_transform: u32,
}

/// Why a surface cannot be used.
#[derive(Clone, Copy, Debug, PartialEq, Eq, Structural)]
pub enum SurfaceError {
    /// The adapter reported no surface format at all.
    NoSurfaceFormat,
}

/// The width by which an adapter says that the surface has no size of its own.
pub const UNDEFINED_EXTENT: u32 = 0xffff_ffff;

/// The format to use in place of a reported one: the 8-bit BGR default where the
/// adapter leaves the format open, the reported format otherwise. The colour
/// space is kept either way.
pub open spec fn usable_format(reported: SurfaceFormat) -> SurfaceFormat {
    if reported.format == Format::Undefined {
        SurfaceFormat { format: Format::B8g8r8Unorm, color_space: reported.color_space }
    } else {
        reported
    }
}

/// The number of swapchain images to ask for: one more than the minimum, but no
/// more than the maximum where the adapter advertises one.
pub open spec fn desired_image_count(min_image_count: u32, max_image_count: u32) -> int {
    if max_image_count > 0 && min_image_count + 1 > max_image_count {
        max_image_count as int
    } else {
        min_image_count + 1
    }
}

/// The size of the swapchain images: the surface's own size, or the window's
/// where the surface has none.
pub open spec fn resolved_extent(current: Extent2D, window: Extent2D) -> Extent2D {
    if current.width == UNDEFINED_EXTENT {
        window
    } else {
        current
    }
}

/// The present mode of choice: mailbox where the adapter offers it, FIFO otherwise.
pub open spec fn preferred_present_mode(offered: Seq<PresentMode>) -> PresentMode {
    if offered.contains(PresentMode::Mailbox) {
        PresentMode::Mailbox
    } else {
        PresentMode::Fifo
    }
}

/// The transform to apply before presenting: none where the surface supports
/// that, the surface's current transform otherwise.
pub open spec fn preferred_transform(supported: u32, current: u32) -> u32 {
    if supported & 0x1 == 0x1 {
        0x1
    } else {
        current
    }
}

/// Picks the surface format from the formats that the adapter reported, in the
/// order in which it reported them: the first one, made usable.
pub fn select_surface_format(surface_formats: &Vec<SurfaceFormat>) -> (selected: Result<
    SurfaceFormat,
    SurfaceError,
>)
    ensures
        surface_formats.len() == 0 ==> selected == Err::<SurfaceFormat, SurfaceError>(
            SurfaceError::NoSurfaceFormat,
        ),
        surface_formats.len() > 0 ==> selected == Ok::<SurfaceFormat, SurfaceError>(
            usable_format(surface_formats[0]),
        ),
{
    if surface_formats.len() == 0 {
        return Err(SurfaceError::NoSurfaceFormat);
    }
    let first = surface_formats[0];
    match first.format {
        Format::Undefined => Ok(
            SurfaceFormat { format: Format::B8g8r8Unorm, color_space: first.color_space },
        ),
        _ => Ok(first),
    }
}

/// Computes how many swapchain images to ask for.
pub fn select_desired_image_count(surface_capabilities: &SurfaceCapabilities) -> (count: u32)
    requires
        desired_image_count(
            surface_capabilities.min_image_count,
            surface_capabilities.max_image_count,
        ) <= u32::MAX,
    ensures
        count == desired_image_count(
            surface_capabilities.min_image_count,
            surface_capabilities.max_image_count,
        ),
{
    let min_image_count = surface_capabilities.min_image_count;
    let max_image_count = surface_capabilities.max_image_count;
    if max_image_count > 0 && min_image_count >= max_image_count {
        max_image_count
    } else {
        min_image_count + 1
    }
}

/// Resolves the size of the swapchain images from what the surface reports and
/// the window's size in pixels.
pub fn select_surface_resolution(
    surface_capabilities: &SurfaceCapabilities,
    window: Extent2D,
) -> (extent: Extent2D)
    ensures
        extent == resolved_extent(surface_capabilities.current_extent, window),
{
    if surface_capabilities.current_extent.width == UNDEFINED_EXTENT {
        window
    } else {
        surface_capabilities.current_extent
    }
}

/// Picks the transform to apply before presenting.
pub fn select_pre_transform(surface_capabilities: &SurfaceCapabilities) -> (transform: u32)
    ensures
        transform == preferred_transform(
            surface_capabilities.supported_transforms,
            surface_capabilities.current_transform,
        ),
{
    if transform_mask_has_identity(surface_capabilities.supported_transforms) {
        identity_transform_bits()
    } else {
        surface_capabilities.current_transform
    }
}

/// Picks the present mode from the modes that the adapter offers.
pub fn select_present_mode(present_modes: &Vec<PresentMode>) -> (mode: PresentMode)
    ensures
        mode == preferred_present_mode(present_modes@),
{
    let mut index: usize = 0;
    while index < present_modes.len()
        invariant
            index <= present_modes.len(),
            forall|k: int| 0 <= k < index ==> present_modes[k] != PresentMode::Mailbox,
        decreases present_modes.len() - index,
    {
        if present_modes[index] == PresentMode::Mailbox {
            return PresentMode::Mailbox;
        }
        index += 1;
    }
    PresentMode::Fifo
}

} // verus!
