use vk_engine::engine::pipeline::{
    all_stages, AttachmentLoadOp, AttachmentStoreOp, BlendFactor, BlendOp, BuildError, ColorBlend,
    CullMode, DynamicState, FrontFace, ImageLayout, InputAssemblyState, LogicOp, MultisampleState,
    Offset2D, Pipeline, PipelineBindPoint, PipelineBuilder, PipelineLayout, PipelineStage,
    PolygonMode, PrimitiveTopology, RasterizationState, Rect2D, RenderPass, Rgba, ShaderType,
    Stage, SubpassRef, VertexInputState, Viewport, ViewportArea, STAGE_COUNT,
};
use vk_engine::engine::surface::{ColorSpace, Extent2D, Format, SurfaceFormat};
use vk_engine::shader::{EntryPoint, Shader, ShaderStage};

fn format(code: i32) -> SurfaceFormat {
    SurfaceFormat { format: Format::Other(code), color_space: ColorSpace::SrgbNonlinear }
}

fn extent() -> Extent2D {
    Extent2D { width: 800, height: 600 }
}

/// A builder with every mandatory stage but the given one.
fn all_but(skipped: Option<Stage>) -> PipelineBuilder {
    let mut builder = Pipeline::build();
    if skipped != Some(Stage::VertexInput) {
        builder = builder.with_vertex_input_state();
    }
    if skipped != Some(Stage::InputAssembly) {
        builder = builder.with_input_assembly_state();
    }
    if skipped != Some(Stage::Viewport) {
        builder = builder.with_viewport(extent());
    }
    if skipped != Some(Stage::Rasterizer) {
        builder = builder.with_rasterizer();
    }
    if skipped != Some(Stage::Multisample) {
        builder = builder.with_multisample();
    }
    if skipped != Some(Stage::ColorBlend) {
        builder = builder.with_color_blend();
    }
    if skipped != Some(Stage::Layout) {
        builder = builder.with_layout(PipelineLayout::empty());
    }
    if skipped != Some(Stage::RenderPass) {
        builder = builder.with_render_pass(RenderPass::new(format(44)));
    }
    builder
}

#[test]
fn shader_kinds_map_to_vulkan_stage_bits() {
    assert_eq!(ShaderType::Vertex.to_vulkan(), 0x1);
    assert_eq!(ShaderType::Fragment.to_vulkan(), 0x10);
}

#[test]
fn shader_stage_starts_at_main() {
    let shader = Shader::load(vec![3, 2, 35, 7, 0, 0, 1, 0], ShaderType::Fragment);
    assert_eq!(shader.code, vec![3, 2, 35, 7, 0, 0, 1, 0]);
    assert_eq!(shader.shader_type, ShaderType::Fragment);
    assert_eq!(shader.create_module().code_size, 8);
    assert_eq!(shader.create_stage(), ShaderStage { stage: 0x10, entry_point: EntryPoint::Main });
    let vertex = Shader::load(vec![], ShaderType::Vertex);
    assert_eq!(vertex.create_module().code_size, 0);
    assert_eq!(vertex.create_stage(), ShaderStage { stage: 0x1, entry_point: EntryPoint::Main });
}

#[test]
fn complete_builder_creates_pipeline() {
    let render_pass = RenderPass::new(format(50));
    let layout = PipelineLayout { set_layout_count: 2, push_constant_range_count: 1 };
    let pipeline = Pipeline::build()
        .with_shader_stage(Shader::load(vec![1, 2, 3, 4], ShaderType::Vertex))
        .with_shader_stage(Shader::load(vec![5, 6, 7, 8], ShaderType::Fragment))
        .with_vertex_input_state()
        .with_input_assembly_state()
        .with_viewport(extent())
        .with_rasterizer()
        .with_multisample()
        .with_color_blend()
        .with_layout(layout)
        .with_render_pass(render_pass)
        .create()
        .unwrap();
    assert_eq!(pipeline.render_pass, render_pass);
    assert_eq!(pipeline.render_pass.attachment.format, Format::Other(50));
    assert_eq!(pipeline.layout, layout);
    assert_eq!(pipeline.stage_count, 2);
    assert_eq!(STAGE_COUNT, 2);
    assert_eq!(pipeline.subpass, 0);
    assert_eq!(pipeline.shaders.len(), 2);
    assert_eq!(pipeline.shaders[0].code, vec![1, 2, 3, 4]);
    assert_eq!(pipeline.shaders[1].shader_type, ShaderType::Fragment);
    assert_eq!(
        pipeline.stages,
        vec![
            ShaderStage { stage: 0x1, entry_point: EntryPoint::Main },
            ShaderStage { stage: 0x10, entry_point: EntryPoint::Main },
        ]
    );
    assert_eq!(
        pipeline.vertex_input_state,
        VertexInputState {
            vertex_binding_description_count: 0,
            vertex_attribute_description_count: 0
        }
    );
    assert_eq!(
        pipeline.input_assembly_state,
        InputAssemblyState {
            topology: PrimitiveTopology::TriangleList,
            primitive_restart_enable: false
        }
    );
    assert_eq!(pipeline.viewport_state, Viewport::new(extent()).create());
    assert_eq!(pipeline.color_blend_state, ColorBlend::new().create());
}

#[test]
fn last_supplied_layout_and_render_pass_are_kept() {
    let first = RenderPass::new(format(44));
    let second = RenderPass::new(format(50));
    let pipeline = all_but(None)
        .with_render_pass(first)
        .with_render_pass(second)
        .with_layout(PipelineLayout { set_layout_count: 7, push_constant_range_count: 0 })
        .create()
        .unwrap();
    assert_eq!(pipeline.render_pass, second);
    assert_ne!(pipeline.render_pass, first);
    assert_eq!(pipeline.layout.set_layout_count, 7);
}

#[test]
fn pipeline_without_shaders_is_created() {
    let pipeline = all_but(None).create().unwrap();
    assert_eq!(pipeline.shaders.len(), 0);
    assert_eq!(pipeline.stages, vec![]);
    assert_eq!(pipeline.stage_count, 2);
}

#[test]
fn each_missing_stage_is_named() {
    for stage in all_stages() {
        let error = all_but(Some(stage)).create().unwrap_err();
        assert_eq!(error, BuildError { missing: vec![stage] });
    }
}

#[test]
fn every_missing_stage_is_listed_in_order() {
    let error = Pipeline::build().create().unwrap_err();
    assert_eq!(
        error.missing,
        vec![
            Stage::VertexInput,
            Stage::InputAssembly,
            Stage::Viewport,
            Stage::Rasterizer,
            Stage::Multisample,
            Stage::ColorBlend,
            Stage::Layout,
            Stage::RenderPass,
        ]
    );
    assert_eq!(all_stages(), error.missing);
    let error = Pipeline::build()
        .with_render_pass(RenderPass::new(format(44)))
        .with_rasterizer()
        .with_vertex_input_state()
        .with_dynamic_state()
        .with_shader_stage(Shader::load(vec![0], ShaderType::Vertex))
        .create()
        .unwrap_err();
    assert_eq!(
        error.missing,
        vec![
            Stage::InputAssembly,
            Stage::Viewport,
            Stage::Multisample,
            Stage::ColorBlend,
            Stage::Layout,
        ]
    );
}

#[test]
fn builder_tells_what_is_configured() {
    let builder = PipelineBuilder::new();
    for stage in all_stages() {
        assert!(!builder.is_configured(stage));
    }
    assert_eq!(builder.find_missing().len(), 8);
    let builder = builder.with_multisample().with_layout(PipelineLayout::empty());
    assert!(builder.is_configured(Stage::Multisample));
    assert!(builder.is_configured(Stage::Layout));
    assert!(!builder.is_configured(Stage::RenderPass));
    assert_eq!(builder.find_missing().len(), 6);
    assert_eq!(all_but(None).find_missing(), vec![]);
}

#[test]
fn dynamic_state_is_optional() {
    let builder = all_but(None).with_dynamic_state();
    assert_eq!(builder.dynamic_state, Some(DynamicState { viewport: true, scissor: true }));
    assert!(builder.create().is_ok());
    assert_eq!(all_but(None).dynamic_state, None);
}

#[test]
fn rasterizer_holds_the_fixed_choices() {
    let builder = Pipeline::build().with_rasterizer();
    assert_eq!(
        builder.rasterizer,
        Some(RasterizationState {
            depth_clamp_enable: false,
            rasterizer_discard_enable: false,
            polygon_mode: PolygonMode::Fill,
            line_width: 1,
            cull_mode: CullMode::Back,
            front_face: FrontFace::Clockwise,
            depth_bias_enable: false,
            depth_bias_constant_factor: 0,
            depth_bias_clamp: 0,
            depth_bias_slope_factor: 0,
        })
    );
}

#[test]
fn multisample_is_single_sample() {
    let builder = Pipeline::build().with_multisample();
    assert_eq!(
        builder.multisample,
        Some(MultisampleState {
            sample_shading_enable: false,
            rasterization_samples: 1,
            min_sample_shading: 1,
            has_sample_mask: false,
            alpha_to_coverage_enable: false,
            alpha_to_one_enable: false,
        })
    );
}

#[test]
fn viewport_covers_the_surface() {
    let viewport = Viewport::new(Extent2D { width: 1024, height: 768 });
    assert_eq!(
        viewport.viewport,
        ViewportArea { x: 0, y: 0, width: 1024, height: 768, min_depth: 0, max_depth: 1 }
    );
    assert_eq!(
        viewport.scissor,
        Rect2D { offset: Offset2D { x: 0, y: 0 }, extent: Extent2D { width: 1024, height: 768 } }
    );
    let state = viewport.create();
    assert_eq!(state.viewport_count, 1);
    assert_eq!(state.scissor_count, 1);
    assert_eq!(state.viewport, viewport.viewport);
    assert_eq!(state.scissor, viewport.scissor);
    assert_eq!(
        Pipeline::build().with_viewport(Extent2D { width: 1024, height: 768 }).viewport_state,
        Some(viewport)
    );
}

#[test]
fn color_blend_is_disabled_but_keeps_its_factors() {
    let blend = ColorBlend::new();
    assert!(!blend.attachment.blend_enable);
    assert_eq!(blend.attachment.src_color_blend_factor, BlendFactor::SrcColor);
    assert_eq!(blend.attachment.dst_color_blend_factor, BlendFactor::OneMinusDstColor);
    assert_eq!(blend.attachment.color_blend_op, BlendOp::Add);
    assert_eq!(blend.attachment.src_alpha_blend_factor, BlendFactor::Zero);
    assert_eq!(blend.attachment.dst_alpha_blend_factor, BlendFactor::Zero);
    assert_eq!(blend.attachment.alpha_blend_op, BlendOp::Add);
    assert_eq!(blend.attachment.color_write_mask, 0xf);
    let state = blend.create();
    assert!(!state.logic_op_enable);
    assert_eq!(state.logic_op, LogicOp::Copy);
    assert_eq!(state.attachment_count, 1);
    assert_eq!(state.attachment, blend.attachment);
    assert_eq!(state.blend_constants, Rgba { red: 0, green: 0, blue: 0, alpha: 0 });
    assert_eq!(Pipeline::build().with_color_blend().color_blend_state, Some(blend));
}

#[test]
fn render_pass_clears_and_presents() {
    let render_pass = RenderPass::new(SurfaceFormat {
        format: Format::B8g8r8Unorm,
        color_space: ColorSpace::SrgbNonlinear,
    });
    assert_eq!(render_pass.attachment.flags, 0);
    assert_eq!(render_pass.attachment.format, Format::B8g8r8Unorm);
    assert_eq!(render_pass.attachment.samples, 1);
    assert_eq!(render_pass.attachment.load_op, AttachmentLoadOp::Clear);
    assert_eq!(render_pass.attachment.store_op, AttachmentStoreOp::Store);
    assert_eq!(render_pass.attachment.stencil_load_op, AttachmentLoadOp::DontCare);
    assert_eq!(render_pass.attachment.stencil_store_op, AttachmentStoreOp::DontCare);
    assert_eq!(render_pass.attachment.initial_layout, ImageLayout::Undefined);
    assert_eq!(render_pass.attachment.final_layout, ImageLayout::PresentSrc);
    assert_eq!(render_pass.subpass.pipeline_bind_point, PipelineBindPoint::Graphics);
    assert_eq!(render_pass.subpass.color_attachment_count, 1);
    assert_eq!(render_pass.subpass.color_attachment.attachment, 0);
    assert_eq!(render_pass.subpass.color_attachment.layout, ImageLayout::ColorAttachmentOptimal);
    assert_eq!(render_pass.subpass.input_attachment_count, 0);
    assert_eq!(render_pass.subpass.preserve_attachment_count, 0);
    assert!(!render_pass.subpass.has_resolve_attachments);
    assert!(!render_pass.subpass.has_depth_stencil_attachment);
    assert_eq!(render_pass.dependency.src_subpass, SubpassRef::External);
    assert_eq!(render_pass.dependency.dst_subpass, SubpassRef::Index(0));
    assert_eq!(render_pass.dependency.src_stage_mask, PipelineStage::ColorAttachmentOutput);
    assert_eq!(render_pass.dependency.dst_stage_mask, PipelineStage::ColorAttachmentOutput);
    assert_eq!(render_pass.dependency.src_access_mask, 0);
    assert_eq!(render_pass.dependency.dst_access_mask, 0x180);
}

#[test]
fn empty_layout_has_nothing() {
    assert_eq!(
        PipelineLayout::empty(),
        PipelineLayout { set_layout_count: 0, push_constant_range_count: 0 }
    );
}
