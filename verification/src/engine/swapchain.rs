//! The swapchain: what it is created from.

use crate::engine::surface::{ColorSpace, Extent2D, Format, PresentMode, SurfaceFormat};
use vstd::prelude::*;

verus! {

/// What the swapchain's images are used for.
#[derive(Clone, Copy, Debug, PartialEq, Eq, Structural)]
pub enum ImageUsage {
    ColorAttachment,
}

/// Which queue families may touch an image.
#[derive(Clone, Copy, Debug, PartialEq, Eq, Structural)]
pub enum SharingMode {
    /// One queue family at a time.
    Exclusive,
    Concurrent,
}

/// How the window's alpha channel is treated when it is shown.
#[derive(Clone, Copy, Debug, PartialEq, Eq, Structural)]
pub enum CompositeAlpha {
    /// The alpha channel is ignored.
    Opaque,
}

/// What a swapchain is created from. The transform is a Vulkan bit mask.
#[derive(Clone, Copy, Debug, PartialEq, Eq, Structural)]
pub struct SwapchainInfo {
    pub min_image_count: u32,
    pub image_format: Format,
    pub image_color_space: ColorSpace,
    pub image_extent: Extent2D,
    pub image_usage: ImageUsage,
    pub image_array_layers: u32,
    pub image_sharing_mode: SharingMode,
    pub queue_family_index_count: u32,
    pub pre_transform: u32,
    pub composite_alpha: CompositeAlpha,
    pub present_mode: PresentMode,
    pub clipped: bool,
    /// Whether the swapchain takes the place of an older one.
    pub replaces_old_swapchain: bool,
}

/// The renderer's swapchain for what was negotiated: images with one layer,
/// drawn to as colour attachments by one queue family, shown without regard to
/// alpha, clipped where the window is covered, with no swapchain before it.
pub open spec fn swapchain_for(
    desired_image_count: u32,
    surface_format: SurfaceFormat,
    surface_resolution: Extent2D,
    pre_transform: u32,
    present_mode: PresentMode,
) -> SwapchainInfo {
    SwapchainInfo {
        min_image_count: desired_image_count,
        image_format: surface_format.format,
        image_color_space: surface_format.color_space,
        image_extent: surface_resolution,
        image_usage: ImageUsage::ColorAttachment,
        image_array_layers: 1,
        image_sharing_mode: SharingMode::Exclusive,
        queue_family_index_count: 0,
        pre_transform,
        composite_alpha: CompositeAlpha::Opaque,
        present_mode,
        clipped: true,
        replaces_old_swapchain: false,
    }
}

/// Says what the swapchain is created from.
pub fn create_swapchain(
    desired_image_count: u32,
    surface_format: &SurfaceFormat,
    surface_resolution: Extent2D,
    pre_transform: u32,
    present_mode: PresentMode,
) -> (info: SwapchainInfo)
    ensures
        info == swapchain_for(
            desired_image_count,
            *surface_format,
            surface_resolution,
            pre_transform,
            present_mode,
        ),
{
    SwapchainInfo {
        min_image_count: desired_image_count,
        image_format: surface_format.format,
        image_color_space: surface_format.color_space,
        image_extent: surface_resolution,
        image_usage: ImageUsage::ColorAttachment,
        image_array_layers: 1,
        image_sharing_mode: SharingMode::Exclusive,
        queue_family_index_count: 0,
        pre_transform,
        composite_alpha: CompositeAlpha::Opaque,
        present_mode,
        clipped: true,
        replaces_old_swapchain: false,
    }
}

} // verus!
