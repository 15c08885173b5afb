use vk_engine::application::{create_framebuffers, FramebufferInfo};
use vk_engine::engine::command_pool::{
    Command, CommandBufferLevel, CommandBufferUsage, CommandPool, SubpassContents,
};
use vk_engine::engine::image::{
    create_image_views, ComponentMapping, ComponentSwizzle, ImageAspect, ImageSubresourceRange,
    ImageViewInfo, ImageViewType,
};
use vk_engine::engine::pipeline::{
    Offset2D, Pipeline, PipelineBindPoint, PipelineLayout, Rect2D, RenderPass, Rgba,
};
use vk_engine::engine::surface::{ColorSpace, Extent2D, Format, SurfaceFormat};

fn surface_format() -> SurfaceFormat {
    SurfaceFormat { format: Format::Other(44), color_space: ColorSpace::SrgbNonlinear }
}

fn extent() -> Extent2D {
    Extent2D { width: 800, height: 600 }
}

fn pipeline() -> Pipeline {
    Pipeline::build()
        .with_vertex_input_state()
        .with_input_assembly_state()
        .with_viewport(extent())
        .with_rasterizer()
        .with_multisample()
        .with_color_blend()
        .with_layout(PipelineLayout::empty())
        .with_render_pass(RenderPass::new(surface_format()))
        .create()
        .unwrap()
}

fn pass(buffer: u32, framebuffer: u32) -> Vec<Command> {
    vec![
        Command::BeginRenderPass {
            buffer,
            render_pass: RenderPass::new(surface_format()),
            framebuffer,
            render_area: Rect2D { offset: Offset2D { x: 0, y: 0 }, extent: extent() },
            clear_value_count: 1,
            clear_color: Rgba { red: 0, green: 0, blue: 0, alpha: 1 },
            contents: SubpassContents::Inline,
        },
        Command::BindPipeline { buffer, bind_point: PipelineBindPoint::Graphics, pipeline: 0 },
        Command::Draw {
            buffer,
            vertex_count: 3,
            instance_count: 1,
            first_vertex: 0,
            first_instance: 0,
        },
        Command::EndRenderPass { buffer },
    ]
}

#[test]
fn command_pool_has_one_primary_buffer_per_framebuffer() {
    let pool = CommandPool::new(3, 1);
    assert_eq!(
        pool,
        CommandPool {
            queue_family_index: 1,
            level: CommandBufferLevel::Primary,
            command_buffer_count: 3
        }
    );
}

#[test]
fn each_buffer_records_a_pass_for_every_framebuffer() {
    let pool = CommandPool::new(2, 0);
    let commands = pool.setup_command_buffers(2, &pipeline(), extent());
    let mut expected = Vec::new();
    for buffer in 0..2 {
        expected.push(Command::Begin { buffer, usage: CommandBufferUsage::SimultaneousUse });
        for framebuffer in 0..2 {
            expected.extend(pass(buffer, framebuffer));
        }
        expected.push(Command::End { buffer });
    }
    assert_eq!(commands.len(), 20);
    assert_eq!(commands, expected);
}

#[test]
fn single_buffer_recording_is_begin_pass_end() {
    let pool = CommandPool::new(1, 0);
    let commands = pool.setup_command_buffers(1, &pipeline(), extent());
    let mut expected =
        vec![Command::Begin { buffer: 0, usage: CommandBufferUsage::SimultaneousUse }];
    expected.extend(pass(0, 0));
    expected.push(Command::End { buffer: 0 });
    assert_eq!(commands, expected);
}

#[test]
fn recording_without_framebuffers_is_begin_and_end() {
    let pool = CommandPool::new(2, 0);
    let commands = pool.setup_command_buffers(0, &pipeline(), extent());
    assert_eq!(
        commands,
        vec![
            Command::Begin { buffer: 0, usage: CommandBufferUsage::SimultaneousUse },
            Command::End { buffer: 0 },
            Command::Begin { buffer: 1, usage: CommandBufferUsage::SimultaneousUse },
            Command::End { buffer: 1 },
        ]
    );
    assert_eq!(CommandPool::new(0, 0).setup_command_buffers(3, &pipeline(), extent()), vec![]);
}

#[test]
fn one_image_view_per_image() {
    let views = create_image_views(3, &surface_format());
    assert_eq!(views.len(), 3);
    for (index, view) in views.iter().enumerate() {
        assert_eq!(
            *view,
            ImageViewInfo {
                image: index as u32,
                view_type: ImageViewType::Type2d,
                format: Format::Other(44),
                components: ComponentMapping {
                    r: ComponentSwizzle::R,
                    g: ComponentSwizzle::G,
                    b: ComponentSwizzle::B,
                    a: ComponentSwizzle::A,
                },
                subresource_range: ImageSubresourceRange {
                    aspect_mask: ImageAspect::Color,
                    base_mip_level: 0,
                    level_count: 1,
                    base_array_layer: 0,
                    layer_count: 1,
                },
            }
        );
    }
    assert_eq!(create_image_views(0, &surface_format()), vec![]);
}

#[test]
fn one_framebuffer_per_image_view() {
    let pipeline = pipeline();
    let framebuffers = create_framebuffers(2, &pipeline, extent());
    assert_eq!(
        framebuffers,
        vec![
            FramebufferInfo {
                render_pass: pipeline.render_pass,
                attachment_count: 1,
                attachment: 0,
                width: 800,
                height: 600,
                layers: 1,
            },
            FramebufferInfo {
                render_pass: pipeline.render_pass,
                attachment_count: 1,
                attachment: 1,
                width: 800,
                height: 600,
                layers: 1,
            },
        ]
    );
    assert_eq!(create_framebuffers(0, &pipeline, extent()), vec![]);
}
