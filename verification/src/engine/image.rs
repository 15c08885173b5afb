//! The views through which the swapchain's images are drawn to.

use crate::engine::surface::{Format, SurfaceFormat};
use vstd::prelude::*;

verus! {

/// The shape of an image as a view shows it.
#[derive(Clone, Copy, Debug, PartialEq, Eq, Structural)]
pub enum ImageViewType {
    Type2d,
}

/// Where a channel of a view takes its values from.
#[derive(Clone, Copy, Debug, PartialEq, Eq, Structural)]
pub enum ComponentSwizzle {
    Identity,
    R,
    G,
    B,
    A,
}

/// The source of each channel of a view.
#[derive(Clone, Copy, Debug, PartialEq, Eq, Structural)]
pub struct ComponentMapping {
    pub r: ComponentSwizzle,
    pub g: ComponentSwizzle,
    pub b: ComponentSwizzle,
    pub a: ComponentSwizzle,
}

/// The part of an image's data that a view shows.
#[derive(Clone, Copy, Debug, PartialEq, Eq, Structural)]
pub enum ImageAspect {
    Color,
}

/// The mip levels and array layers that a view shows.
#[derive(Clone, Copy, Debug, PartialEq, Eq, Structural)]
pub struct ImageSubresourceRange {
    pub aspect_mask: ImageAspect,
    pub base_mip_level: u32,
    pub level_count: u32,
    pub base_array_layer: u32,
    pub layer_count: u32,
}

/// What an image view is created from.
#[derive(Clone, Copy, Debug, PartialEq, Eq, Structural)]
pub struct ImageViewInfo {
    /// The index of the swapchain image that the view shows.
    pub image: u32,
    pub view_type: ImageViewType,
    pub format: Format,
    pub components: ComponentMapping,
    pub subresource_range: ImageSubresourceRange,
}

/// The renderer's view of a swapchain image: two-dimensional, each channel its
/// own, the colour of the one mip level and the one array layer.
pub open spec fn view_of(image: u32, surface_format: SurfaceFormat) -> ImageViewInfo {
    ImageViewInfo {
        image,
        view_type: ImageViewType::Type2d,
        format: surface_format.format,
        components: ComponentMapping {
            r: ComponentSwizzle::R,
            g: ComponentSwizzle::G,
            b: ComponentSwizzle::B,
            a: ComponentSwizzle::A,
        },
        subresource_range: ImageSubresourceRange {
            aspect_mask: ImageAspect::Color,
            base_mip_level: 0,
            level_count: 1,
            base_array_layer: 0,
            layer_count: 1,
        },
    }
}

/// Says what the image views are created from: one view for each of the
/// swapchain's `images` images, in the order of the images.
pub fn create_image_views(images: u32, surface_format: &SurfaceFormat) -> (views: Vec<
    ImageViewInfo,
>)
    ensures
        views@ == Seq::new(images as nat, |i: int| view_of(i as u32, *surface_format)),
{
    let mut views: Vec<ImageViewInfo> = Vec::new();
    let mut image: u32 = 0;
    while image < images
        invariant
            image <= images,
            views@ == Seq::new(image as nat, |i: int| view_of(i as u32, *surface_format)),
        decreases images - image,
    {
        let create_view_info = ImageViewInfo {
            image,
            view_type: ImageViewType::Type2d,
            format: surface_format.format,
            components: ComponentMapping {
                r: ComponentSwizzle::R,
                g: ComponentSwizzle::G,
                b: ComponentSwizzle::B,
                a: ComponentSwizzle::A,
            },
            subresource_range: ImageSubresourceRange {
                aspect_mask: ImageAspect::Color,
                base_mip_level: 0,
                level_count: 1,
                base_array_layer: 0,
                layer_count: 1,
            },
        };
        views.push(create_view_info);
        image += 1;
        assert(views@ =~= Seq::new(image as nat, |i: int| view_of(i as u32, *surface_format)));
    }
    views
}

} // verus!
