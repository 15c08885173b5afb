//! The graphics pipeline and the builder that assembles it.
//!
//! Everything here is a description in plain values. The host turns a finished
//! [`Pipeline`] into the driver's structures and has it compiled. Quantities that
//! Vulkan takes as floating-point numbers are held as whole numbers; they are all
//! whole in this renderer.

use crate::engine::bits::{
    all_color_components_bits,
    color_attachment_access_bits,
    fragment_stage_bits,
    plain_attachment_bits,
    vertex_stage_bits,
};
use crate::engine::surface::{Extent2D, Format, SurfaceFormat};
use crate::shader::{Shader, ShaderStage};
use vstd::prelude::*;

verus! {

/// The kind of a shader.
#[derive(Clone, Copy, Debug, PartialEq, Eq, Structural)]
pub enum ShaderType {
    Vertex,
    Fragment,
}

impl ShaderType {
    /// The Vulkan stage mask of the kind: bit 0 for a vertex shader, bit 4 for a
    /// fragment shader.
    pub open spec fn stage_bits(self) -> u32 {
        match self {
            ShaderType::Vertex => 0x1,
            ShaderType::Fragment => 0x10,
        }
    }

    /// Gives the Vulkan stage mask of the kind.
    pub fn to_vulkan(&self) -> (bits: u32)
        ensures
            bits == self.stage_bits(),
    {
        match self {
            ShaderType::Vertex => vertex_stage_bits(),
            ShaderType::Fragment => fragment_stage_bits(),
        }
    }
}

/// A pipeline stage, where a wait or a dependency takes hold.
#[derive(Clone, Copy, Debug, PartialEq, Eq, Structural)]
pub enum PipelineStage {
    ColorAttachmentOutput,
}

/// The vertex buffers that the pipeline reads.
#[derive(Clone, Copy, Debug, PartialEq, Eq, Structural)]
pub struct VertexInputState {
    pub vertex_binding_description_count: u32,
    pub vertex_attribute_description_count: u32,
}

/// How vertices are joined into primitives.
#[derive(Clone, Copy, Debug, PartialEq, Eq, Structural)]
pub enum PrimitiveTopology {
    PointList,
    LineList,
    LineStrip,
    TriangleList,
    TriangleStrip,
    TriangleFan,
}

/// The input assembly stage.
#[derive(Clone, Copy, Debug, PartialEq, Eq, Structural)]
pub struct InputAssemblyState {
    pub topology: PrimitiveTopology,
    pub primitive_restart_enable: bool,
}

/// A position in pixels.
#[derive(Clone, Copy, Debug, PartialEq, Eq, Structural)]
pub struct Offset2D {
    pub x: i32,
    pub y: i32,
}

/// A rectangle in pixels.
#[derive(Clone, Copy, Debug, PartialEq, Eq, Structural)]
pub struct Rect2D {
    pub offset: Offset2D,
    pub extent: Extent2D,
}

/// The region of the framebuffer that is drawn to, and its depth range.
#[derive(Clone, Copy, Debug, PartialEq, Eq, Structural)]
pub struct ViewportArea {
    pub x: u32,
    pub y: u32,
    pub width: u32,
    pub height: u32,
    pub min_depth: u32,
    pub max_depth: u32,
}

/// A viewport with its scissor rectangle.
#[derive(Clone, Copy, Debug, PartialEq, Eq, Structural)]
pub struct Viewport {
    pub viewport: ViewportArea,
    pub scissor: Rect2D,
}

/// The viewport stage: one viewport, one scissor.
#[derive(Clone, Copy, Debug, PartialEq, Eq, Structural)]
pub struct ViewportState {
    pub viewport_count: u32,
    pub viewport: ViewportArea,
    pub scissor_count: u32,
    pub scissor: Rect2D,
}

impl Viewport {
    /// The viewport that covers a surface of the given size, with the full depth
    /// range, and a scissor that cuts nothing off.
    pub open spec fn covering(surface_resolution: Extent2D) -> Viewport {
        Viewport {
            viewport: ViewportArea {
                x: 0,
                y: 0,
                width: surface_resolution.width,
                height: surface_resolution.height,
                min_depth: 0,
                max_depth: 1,
            },
            scissor: Rect2D { offset: Offset2D { x: 0, y: 0 }, extent: surface_resolution },
        }
    }

    /// The viewport stage that holds this viewport and its scissor.
    pub open spec fn state(self) -> ViewportState {
        ViewportState {
            viewport_count: 1,
            viewport: self.viewport,
            scissor_count: 1,
            scissor: self.scissor,
        }
    }

    /// Makes the viewport that covers a surface of the given size.
    pub fn new(surface_resolution: Extent2D) -> (viewport: Viewport)
        ensures
            viewport == Viewport::covering(surface_resolution),
    {
        Viewport {
            viewport: ViewportArea {
                x: 0,
                y: 0,
                width: surface_resolution.width,
                height: surface_resolution.height,
                min_depth: 0,
                max_depth: 1,
            },
            scissor: Rect2D { offset: Offset2D { x: 0, y: 0 }, extent: surface_resolution },
        }
    }

    /// Makes the viewport stage from the viewport.
    pub fn create(self) -> (state: ViewportState)
        ensures
            state == self.state(),
    {
        ViewportState {
            viewport_count: 1,
            viewport: self.viewport,
            scissor_count: 1,
            scissor: self.scissor,
        }
    }
}

/// How polygons are filled.
#[derive(Clone, Copy, Debug, PartialEq, Eq, Structural)]
pub enum PolygonMode {
    Fill,
    Line,
    Point,
}

/// Which faces are dropped.
#[derive(Clone, Copy, Debug, PartialEq, Eq, Structural)]
pub enum CullMode {
    Neither,
    Front,
    Back,
    FrontAndBack,
}

/// The winding of a front face.
#[derive(Clone, Copy, Debug, PartialEq, Eq, Structural)]
pub enum FrontFace {
    CounterClockwise,
    Clockwise,
}

/// The rasterization stage. Width and depth bias are whole numbers.
#[derive(Clone, Copy, Debug, PartialEq, Eq, Structural)]
pub struct RasterizationState {
    pub depth_clamp_enable: bool,
    pub rasterizer_discard_enable: bool,
    pub polygon_mode: PolygonMode,
    pub line_width: u32,
    pub cull_mode: CullMode,
    pub front_face: FrontFace,
    pub depth_bias_enable: bool,
    pub depth_bias_constant_factor: u32,
    pub depth_bias_clamp: u32,
    pub depth_bias_slope_factor: u32,
}

/// The multisample stage.
#[derive(Clone, Copy, Debug, PartialEq, Eq, Structural)]
pub struct MultisampleState {
    pub sample_shading_enable: bool,
    /// The number of samples per pixel.
    pub rasterization_samples: u32,
    pub min_sample_shading: u32,
    pub has_sample_mask: bool,
    pub alpha_to_coverage_enable: bool,
    pub alpha_to_one_enable: bool,
}

/// A factor in the blend equation.
#[derive(Clone, Copy, Debug, PartialEq, Eq, Structural)]
pub enum BlendFactor {
    Zero,
    One,
    SrcColor,
    OneMinusSrcColor,
    DstColor,
    OneMinusDstColor,
}

/// An operation of the blend equation.
#[derive(Clone, Copy, Debug, PartialEq, Eq, Structural)]
pub enum BlendOp {
    Add,
    Subtract,
}

/// A logical operation on colours.
#[derive(Clone, Copy, Debug, PartialEq, Eq, Structural)]
pub enum LogicOp {
    Clear,
    And,
    Copy,
}

/// A colour with alpha, each part a whole number.
#[derive(Clone, Copy, Debug, PartialEq, Eq, Structural)]
pub struct Rgba {
    pub red: u32,
    pub green: u32,
    pub blue: u32,
    pub alpha: u32,
}

/// How one colour attachment is blended. The write mask is a Vulkan bit mask.
#[derive(Clone, Copy, Debug, PartialEq, Eq, Structural)]
pub struct ColorBlendAttachment {
    pub blend_enable: bool,
    pub src_color_blend_factor: BlendFactor,
    pub dst_color_blend_factor: BlendFactor,
    pub color_blend_op: BlendOp,
    pub src_alpha_blend_factor: BlendFactor,
    pub dst_alpha_blend_factor: BlendFactor,
    pub alpha_blend_op: BlendOp,
    pub color_write_mask: u32,
}

/// The blending of the pipeline's one colour attachment.
#[derive(Clone, Copy, Debug, PartialEq, Eq, Structural)]
pub struct ColorBlend {
    pub attachment: ColorBlendAttachment,
}

/// The colour blend stage.
#[derive(Clone, Copy, Debug, PartialEq, Eq, Structural)]
pub struct ColorBlendState {
    pub logic_op_enable: bool,
    pub logic_op: LogicOp,
    pub attachment_count: u32,
    pub attachment: ColorBlendAttachment,
    pub blend_constants: Rgba,
}

impl ColorBlend {
    /// The renderer's blending: switched off, every channel written. The factors
    /// have no effect while blending is off; they are part of what is handed to
    /// the driver all the same.
    pub open spec fn opaque() -> ColorBlend {
        ColorBlend {
            attachment: ColorBlendAttachment {
                blend_enable: false,
                src_color_blend_factor: BlendFactor::SrcColor,
                dst_color_blend_factor: BlendFactor::OneMinusDstColor,
                color_blend_op: BlendOp::Add,
                src_alpha_blend_factor: BlendFactor::Zero,
                dst_alpha_blend_factor: BlendFactor::Zero,
                alpha_blend_op: BlendOp::Add,
                color_write_mask: 0xf,
            },
        }
    }

    /// The colour blend stage that holds this blending, with no logical operation
    /// in use.
    pub open spec fn state(self) -> ColorBlendState {
        ColorBlendState {
            logic_op_enable: false,
            logic_op: LogicOp::Copy,
            attachment_count: 1,
            attachment: self.attachment,
            blend_constants: Rgba { red: 0, green: 0, blue: 0, alpha: 0 },
        }
    }

    /// Makes the renderer's blending.
    pub fn new() -> (blend: ColorBlend)
        ensures
            blend == ColorBlend::opaque(),
    {
        ColorBlend {
            attachment: ColorBlendAttachment {
                blend_enable: false,
                src_color_blend_factor: BlendFactor::SrcColor,
                dst_color_blend_factor: BlendFactor::OneMinusDstColor,
                color_blend_op: BlendOp::Add,
                src_alpha_blend_factor: BlendFactor::Zero,
                dst_alpha_blend_factor: BlendFactor::Zero,
                alpha_blend_op: BlendOp::Add,
                color_write_mask: all_color_components_bits(),
            },
        }
    }

    /// Makes the colour blend stage from the blending.
    pub fn create(self) -> (state: ColorBlendState)
        ensures
            state == self.state(),
    {
        ColorBlendState {
            logic_op_enable: false,
            logic_op: LogicOp::Copy,
            attachment_count: 1,
            attachment: self.attachment,
            blend_constants: Rgba { red: 0, green: 0, blue: 0, alpha: 0 },
        }
    }
}

/// The parts of the pipeline that may change between draws.
#[derive(Clone, Copy, Debug, PartialEq, Eq, Structural)]
pub struct DynamicState {
    pub viewport: bool,
    pub scissor: bool,
}

/// What is done with an attachment when a render pass starts.
#[derive(Clone, Copy, Debug, PartialEq, Eq, Structural)]
pub enum AttachmentLoadOp {
    Load,
    Clear,
    DontCare,
}

/// What is done with an attachment when a render pass ends.
#[derive(Clone, Copy, Debug, PartialEq, Eq, Structural)]
pub enum AttachmentStoreOp {
    Store,
    DontCare,
}

/// The layout of an image in memory.
#[derive(Clone, Copy, Debug, PartialEq, Eq, Structural)]
pub enum ImageLayout {
    Undefined,
    ColorAttachmentOptimal,
    PresentSrc,
}

/// What a pipeline is bound for.
#[derive(Clone, Copy, Debug, PartialEq, Eq, Structural)]
pub enum PipelineBindPoint {
    Graphics,
    Compute,
}

/// One side of a subpass dependency.
#[derive(Clone, Copy, Debug, PartialEq, Eq, Structural)]
pub enum SubpassRef {
    /// Whatever comes before or after the render pass.
    External,
    /// A subpass of the render pass, by its index.
    Index(u32),
}

/// An attachment of a render pass. The flags are a Vulkan bit mask.
#[derive(Clone, Copy, Debug, PartialEq, Eq, Structural)]
pub struct AttachmentDescription {
    pub flags: u32,
    pub format: Format,
    /// The number of samples per pixel.
    pub samples: u32,
    pub load_op: AttachmentLoadOp,
    pub store_op: AttachmentStoreOp,
    pub stencil_load_op: AttachmentLoadOp,
    pub stencil_store_op: AttachmentStoreOp,
    pub initial_layout: ImageLayout,
    pub final_layout: ImageLayout,
}

/// The use of an attachment in a subpass.
#[derive(Clone, Copy, Debug, PartialEq, Eq, Structural)]
pub struct AttachmentReference {
    pub attachment: u32,
    pub layout: ImageLayout,
}

/// A subpass with one colour attachment.
#[derive(Clone, Copy, Debug, PartialEq, Eq, Structural)]
pub struct SubpassDescription {
    pub pipeline_bind_point: PipelineBindPoint,
    pub color_attachment_count: u32,
    pub color_attachment: AttachmentReference,
    pub input_attachment_count: u32,
    pub preserve_attachment_count: u32,
    pub has_resolve_attachments: bool,
    pub has_depth_stencil_attachment: bool,
}

/// An ordering between subpasses. The access masks are Vulkan bit masks.
#[derive(Clone, Copy, Debug, PartialEq, Eq, Structural)]
pub struct SubpassDependency {
    pub src_subpass: SubpassRef,
    pub dst_subpass: SubpassRef,
    pub src_stage_mask: PipelineStage,
    pub src_access_mask: u32,
    pub dst_stage_mask: PipelineStage,
    pub dst_access_mask: u32,
}

/// A render pass: one attachment, one subpass, one dependency.
#[derive(Clone, Copy, Debug, PartialEq, Eq, Structural)]
pub struct RenderPass {
    pub attachment: AttachmentDescription,
    pub subpass: SubpassDescription,
    pub dependency: SubpassDependency,
}

impl RenderPass {
    /// The renderer's render pass for a surface format. Its one colour attachment
    /// is cleared on load and stored at the end, and goes from an undefined
    /// layout to the layout for presentation. The dependency makes the subpass
    /// wait, at the colour attachment output stage, before it reads or writes
    /// the attachment, so that the layout transition does not run ahead of the
    /// presentation of the frame before.
    pub open spec fn presenting(surface_format: SurfaceFormat) -> RenderPass {
        RenderPass {
            attachment: AttachmentDescription {
                flags: 0,
                format: surface_format.format,
                samples: 1,
                load_op: AttachmentLoadOp::Clear,
                store_op: AttachmentStoreOp::Store,
                stencil_load_op: AttachmentLoadOp::DontCare,
                stencil_store_op: AttachmentStoreOp::DontCare,
                initial_layout: ImageLayout::Undefined,
                final_layout: ImageLayout::PresentSrc,
            },
            subpass: SubpassDescription {
                pipeline_bind_point: PipelineBindPoint::Graphics,
                color_attachment_count: 1,
                color_attachment: AttachmentReference {
                    attachment: 0,
                    layout: ImageLayout::ColorAttachmentOptimal,
                },
                input_attachment_count: 0,
                preserve_attachment_count: 0,
                has_resolve_attachments: false,
                has_depth_stencil_attachment: false,
            },
            dependency: SubpassDependency {
                src_subpass: SubpassRef::External,
                dst_subpass: SubpassRef::Index(0),
                src_stage_mask: PipelineStage::ColorAttachmentOutput,
                src_access_mask: 0,
                dst_stage_mask: PipelineStage::ColorAttachmentOutput,
                dst_access_mask: 0x180,
            },
        }
    }

    /// Makes the renderer's render pass for a surface format.
    pub fn new(surface_format: SurfaceFormat) -> (render_pass: RenderPass)
        ensures
            render_pass == RenderPass::presenting(surface_format),
    {
        let color_attachment = AttachmentDescription {
            flags: plain_attachment_bits(),
            format: surface_format.format,
            samples: 1,
            load_op: AttachmentLoadOp::Clear,
            store_op: AttachmentStoreOp::Store,
            stencil_load_op: AttachmentLoadOp::DontCare,
            stencil_store_op: AttachmentStoreOp::DontCare,
            initial_layout: ImageLayout::Undefined,
            final_layout: ImageLayout::PresentSrc,
        };
        let color_attachment_ref = AttachmentReference {
            attachment: 0,
            layout: ImageLayout::ColorAttachmentOptimal,
        };
        let subpass_description = SubpassDescription {
            pipeline_bind_point: PipelineBindPoint::Graphics,
            color_attachment_count: 1,
            color_attachment: color_attachment_ref,
            input_attachment_count: 0,
            preserve_attachment_count: 0,
            has_resolve_attachments: false,
            has_depth_stencil_attachment: false,
        };
        let dependency = SubpassDependency {
            src_subpass: SubpassRef::External,
            dst_subpass: SubpassRef::Index(0),
            src_stage_mask: PipelineStage::ColorAttachmentOutput,
            src_access_mask: 0,
            dst_stage_mask: PipelineStage::ColorAttachmentOutput,
            dst_access_mask: color_attachment_access_bits(),
        };
        RenderPass { attachment: color_attachment, subpass: subpass_description, dependency }
    }
}

/// The resources that a pipeline's shaders can reach.
#[derive(Clone, Copy, Debug, PartialEq, Eq, Structural)]
pub struct PipelineLayout {
    pub set_layout_count: u32,
    pub push_constant_range_count: u32,
}

impl PipelineLayout {
    /// Makes the layout with no descriptor sets and no push constants.
    pub fn empty() -> (layout: PipelineLayout)
        ensures
            layout == (PipelineLayout { set_layout_count: 0, push_constant_range_count: 0 }),
    {
        PipelineLayout { set_layout_count: 0, push_constant_range_count: 0 }
    }
}

/// The stages that a pipeline cannot be created without, in the order in which
/// they are looked for.
#[derive(Clone, Copy, Debug, PartialEq, Eq, Structural)]
pub enum Stage {
    VertexInput,
    InputAssembly,
    Viewport,
    Rasterizer,
    Multisample,
    ColorBlend,
    Layout,
    RenderPass,
}

/// The mandatory stages in the order in which they are looked for.
pub open spec fn mandatory_stages() -> Seq<Stage> {
    seq![
        Stage::VertexInput,
        Stage::InputAssembly,
        Stage::Viewport,
        Stage::Rasterizer,
        Stage::Multisample,
        Stage::ColorBlend,
        Stage::Layout,
        Stage::RenderPass,
    ]
}

/// Lists the mandatory stages in the order in which they are looked for.
pub fn all_stages() -> (stages: Vec<Stage>)
    ensures
        stages@ == mandatory_stages(),
{
    let stages = vec![
        Stage::VertexInput,
        Stage::InputAssembly,
        Stage::Viewport,
        Stage::Rasterizer,
        Stage::Multisample,
        Stage::ColorBlend,
        Stage::Layout,
        Stage::RenderPass,
    ];
    assert(stages@ =~= mandatory_stages());
    stages
}

/// The failure to create a pipeline: every mandatory stage that was never
/// configured, in the order of [`Stage`].
#[derive(Debug, PartialEq, Eq)]
pub struct BuildError {
    pub missing: Vec<Stage>,
}

/// The number of shader stages that a pipeline is compiled from: the first two
/// of its shaders.
pub const STAGE_COUNT: u32 = 2;

/// An immutable pipeline: what it is compiled from, and what it keeps for its
/// lifetime.
#[derive(Debug)]
pub struct Pipeline {
    /// The number of shader stages handed to the compiler.
    pub stage_count: u32,
    /// The stage of each shader, in the order of `shaders`.
    pub stages: Vec<ShaderStage>,
    pub vertex_input_state: VertexInputState,
    pub input_assembly_state: InputAssemblyState,
    pub viewport_state: ViewportState,
    pub rasterization_state: RasterizationState,
    pub multisample_state: MultisampleState,
    pub color_blend_state: ColorBlendState,
    /// The index of the subpass in which the pipeline is used.
    pub subpass: u32,
    pub render_pass: RenderPass,
    pub layout: PipelineLayout,
    pub shaders: Vec<Shader>,
}

/// The stages configured so far.
#[derive(Debug)]
pub struct PipelineBuilder {
    pub shaders: Vec<Shader>,
    pub vertex_input_state: Option<VertexInputState>,
    pub input_assembly_state: Option<InputAssemblyState>,
    pub viewport_state: Option<Viewport>,
    pub rasterizer: Option<RasterizationState>,
    pub multisample: Option<MultisampleState>,
    pub color_blend_state: Option<ColorBlend>,
    pub dynamic_state: Option<DynamicState>,
    pub layout: Option<PipelineLayout>,
    pub render_pass: Option<RenderPass>,
}

impl Pipeline {
    /// Starts a pipeline: a builder with nothing configured.
    pub fn build() -> (builder: PipelineBuilder)
        ensures
            builder.is_blank(),
    {
        PipelineBuilder::new()
    }

    /// Whether the pipeline is what a builder's stages make: each stage as it
    /// was configured, the render pass and the layout that were supplied, the
    /// shaders in the order in which they were added, each with its stage.
    pub open spec fn made_from(self, builder: PipelineBuilder) -> bool {
        &&& builder.vertex_input_state == Some(self.vertex_input_state)
        &&& builder.input_assembly_state == Some(self.input_assembly_state)
        &&& builder.viewport_state matches Some(viewport) && self.viewport_state
            == viewport.state()
        &&& builder.rasterizer == Some(self.rasterization_state)
        &&& builder.multisample == Some(self.multisample_state)
        &&& builder.color_blend_state matches Some(blend) && self.color_blend_state
            == blend.state()
        &&& builder.layout == Some(self.layout)
        &&& builder.render_pass == Some(self.render_pass)
        &&& self.shaders == builder.shaders
        &&& self.stages@ == builder.shaders@.map_values(|shader: Shader| shader.stage())
        &&& self.stage_count == STAGE_COUNT
        &&& self.subpass == 0
    }
}

impl PipelineBuilder {
    /// Whether nothing has been configured.
    pub open spec fn is_blank(self) -> bool {
        &&& self.shaders@.len() == 0
        &&& self.vertex_input_state is None
        &&& self.input_assembly_state is None
        &&& self.viewport_state is None
        &&& self.rasterizer is None
        &&& self.multisample is None
        &&& self.color_blend_state is None
        &&& self.dynamic_state is None
        &&& self.layout is None
        &&& self.render_pass is None
    }

    /// Whether a mandatory stage has been configured.
    pub open spec fn has(self, stage: Stage) -> bool {
        match stage {
            Stage::VertexInput => self.vertex_input_state is Some,
            Stage::InputAssembly => self.input_assembly_state is Some,
            Stage::Viewport => self.viewport_state is Some,
            Stage::Rasterizer => self.rasterizer is Some,
            Stage::Multisample => self.multisample is Some,
            Stage::ColorBlend => self.color_blend_state is Some,
            Stage::Layout => self.layout is Some,
            Stage::RenderPass => self.render_pass is Some,
        }
    }

    /// The mandatory stages that have not been configured, in the order of
    /// [`Stage`].
    pub open spec fn missing_stages(self) -> Seq<Stage> {
        mandatory_stages().filter(|stage: Stage| !self.has(stage))
    }

    /// The renderer's vertex input: no buffers, the vertices come from the
    /// shader.
    pub open spec fn no_vertex_input() -> VertexInputState {
        VertexInputState { vertex_binding_description_count: 0, vertex_attribute_description_count: 0 }
    }

    /// The renderer's input assembly: a list of triangles.
    pub open spec fn triangle_list() -> InputAssemblyState {
        InputAssemblyState {
            topology: PrimitiveTopology::TriangleList,
            primitive_restart_enable: false,
        }
    }

    /// The renderer's rasterization: filled polygons, clockwise front faces, back
    /// faces dropped, lines one pixel wide, no depth clamp or bias.
    pub open spec fn filled_polygons() -> RasterizationState {
        RasterizationState {
            depth_clamp_enable: false,
            rasterizer_discard_enable: false,
            polygon_mode: PolygonMode::Fill,
            line_width: 1,
            cull_mode: CullMode::Back,
            front_face: FrontFace::Clockwise,
            depth_bias_enable: false,
            depth_bias_constant_factor: 0,
            depth_bias_clamp: 0,
            depth_bias_slope_factor: 0,
        }
    }

    /// The renderer's multisampling: one sample per pixel.
    pub open spec fn single_sample() -> MultisampleState {
        MultisampleState {
            sample_shading_enable: false,
            rasterization_samples: 1,
            min_sample_shading: 1,
            has_sample_mask: false,
            alpha_to_coverage_enable: false,
            alpha_to_one_enable: false,
        }
    }

    /// A builder with nothing configured.
    pub fn new() -> (builder: PipelineBuilder)
        ensures
            builder.is_blank(),
    {
        PipelineBuilder {
            shaders: Vec::new(),
            vertex_input_state: None,
            input_assembly_state: None,
            viewport_state: None,
            rasterizer: None,
            multisample: None,
            color_blend_state: None,
            dynamic_state: None,
            layout: None,
            render_pass: None,
        }
    }

    /// Adds a shader after those added before.
    pub fn with_shader_stage(self, shader: Shader) -> (builder: PipelineBuilder)
        ensures
            builder.shaders@ == self.shaders@.push(shader),
            builder == (PipelineBuilder { shaders: builder.shaders, ..self }),
    {
        let mut builder = self;
        builder.shaders.push(shader);
        builder
    }

    /// Configures the vertex input stage.
    pub fn with_vertex_input_state(self) -> (builder: PipelineBuilder)
        ensures
            builder == (PipelineBuilder {
                vertex_input_state: Some(PipelineBuilder::no_vertex_input()),
                ..self
            }),
    {
        let vertex_input_state = VertexInputState {
            vertex_binding_description_count: 0,
            vertex_attribute_description_count: 0,
        };
        let mut builder = self;
        builder.vertex_input_state = Some(vertex_input_state);
        builder
    }

    /// Configures the input assembly stage.
    pub fn with_input_assembly_state(self) -> (builder: PipelineBuilder)
        ensures
            builder == (PipelineBuilder {
                input_assembly_state: Some(PipelineBuilder::triangle_list()),
                ..self
            }),
    {
        let input_assembly_state = InputAssemblyState {
            topology: PrimitiveTopology::TriangleList,
            primitive_restart_enable: false,
        };
        let mut builder = self;
        builder.input_assembly_state = Some(input_assembly_state);
        builder
    }

    /// Configures the viewport stage to cover a surface of the given size.
    pub fn with_viewport(self, surface_resolution: Extent2D) -> (builder: PipelineBuilder)
        ensures
            builder == (PipelineBuilder {
                viewport_state: Some(Viewport::covering(surface_resolution)),
                ..self
            }),
    {
        let mut builder = self;
        builder.viewport_state = Some(Viewport::new(surface_resolution));
        builder
    }

    /// Configures the rasterization stage.
    pub fn with_rasterizer(self) -> (builder: PipelineBuilder)
        ensures
            builder == (PipelineBuilder {
                rasterizer: Some(PipelineBuilder::filled_polygons()),
                ..self
            }),
    {
        let rasterizer = RasterizationState {
            depth_clamp_enable: false,
            rasterizer_discard_enable: false,
            polygon_mode: PolygonMode::Fill,
            line_width: 1,
            cull_mode: CullMode::Back,
            front_face: FrontFace::Clockwise,
            depth_bias_enable: false,
            depth_bias_constant_factor: 0,
            depth_bias_clamp: 0,
            depth_bias_slope_factor: 0,
        };
        let mut builder = self;
        builder.rasterizer = Some(rasterizer);
        builder
    }

    /// Configures the multisample stage.
    pub fn with_multisample(self) -> (builder: PipelineBuilder)
        ensures
            builder == (PipelineBuilder {
                multisample: Some(PipelineBuilder::single_sample()),
                ..self
            }),
    {
        let multisample = MultisampleState {
            sample_shading_enable: false,
            rasterization_samples: 1,
            min_sample_shading: 1,
            has_sample_mask: false,
            alpha_to_coverage_enable: false,
            alpha_to_one_enable: false,
        };
        let mut builder = self;
        builder.multisample = Some(multisample);
        builder
    }

    /// Configures the colour blend stage.
    pub fn with_color_blend(self) -> (builder: PipelineBuilder)
        ensures
            builder == (PipelineBuilder { color_blend_state: Some(ColorBlend::opaque()), ..self }),
    {
        let mut builder = self;
        builder.color_blend_state = Some(ColorBlend::new());
        builder
    }

    /// Makes viewport and scissor dynamic. The stage is optional, and a pipeline
    /// is created without it whether it was configured or not.
    pub fn with_dynamic_state(self) -> (builder: PipelineBuilder)
        ensures
            builder == (PipelineBuilder {
                dynamic_state: Some(DynamicState { viewport: true, scissor: true }),
                ..self
            }),
    {
        let mut builder = self;
        builder.dynamic_state = Some(DynamicState { viewport: true, scissor: true });
        builder
    }

    /// Supplies the pipeline layout.
    pub fn with_layout(self, layout: PipelineLayout) -> (builder: PipelineBuilder)
        ensures
            builder == (PipelineBuilder { layout: Some(layout), ..self }),
    {
        let mut builder = self;
        builder.layout = Some(layout);
        builder
    }

    /// Supplies the render pass.
    pub fn with_render_pass(self, render_pass: RenderPass) -> (builder: PipelineBuilder)
        ensures
            builder == (PipelineBuilder { render_pass: Some(render_pass), ..self }),
    {
        let mut builder = self;
        builder.render_pass = Some(render_pass);
        builder
    }

    /// Tells whether a mandatory stage has been configured.
    pub fn is_configured(&self, stage: Stage) -> (configured: bool)
        ensures
            configured == self.has(stage),
    {
        match stage {
            Stage::VertexInput => self.vertex_input_state.is_some(),
            Stage::InputAssembly => self.input_assembly_state.is_some(),
            Stage::Viewport => self.viewport_state.is_some(),
            Stage::Rasterizer => self.rasterizer.is_some(),
            Stage::Multisample => self.multisample.is_some(),
            Stage::ColorBlend => self.color_blend_state.is_some(),
            Stage::Layout => self.layout.is_some(),
            Stage::RenderPass => self.render_pass.is_some(),
        }
    }

    /// Lists the mandatory stages that have not been configured.
    pub fn find_missing(&self) -> (missing: Vec<Stage>)
        ensures
            missing@ == self.missing_stages(),
    {
        let stages = all_stages();
        let ghost lacking = |stage: Stage| !self.has(stage);
        let mut missing: Vec<Stage> = Vec::new();
        let mut index: usize = 0;
        proof {
            assert(stages@.take(0).filter(lacking) =~= Seq::<Stage>::empty()) by {
                stages@.take(0).lemma_filter_len(lacking);
            }
        }
        while index < stages.len()
            invariant
                index <= stages.len(),
                lacking == |stage: Stage| !self.has(stage),
                missing@ == stages@.take(index as int).filter(lacking),
            decreases stages.len() - index,
        {
            let stage = stages[index];
            proof {
                assert(stages@.take(index + 1) =~= stages@.take(index as int).push(stage));
                stages@.take(index as int).lemma_filter_push(stage, lacking);
            }
            if !self.is_configured(stage) {
                missing.push(stage);
            }
            index += 1;
        }
        proof {
            assert(stages@.take(stages@.len() as int) =~= stages@);
        }
        missing
    }

    /// Creates the pipeline from the stages configured, or fails with the list of
    /// every mandatory stage that is missing. Shaders and dynamic state are not
    /// mandatory.
    pub fn create(self) -> (created: Result<Pipeline, BuildError>)
        ensures
            match created {
                Ok(pipeline) => self.missing_stages().len() == 0 && pipeline.made_from(self),
                Err(error) => error.missing@.len() > 0 && error.missing@ == self.missing_stages(),
            },
    {
        let missing = self.find_missing();
        if missing.len() > 0 {
            return Err(BuildError { missing });
        }
        proof {
            nothing_missing_when_complete(self);
            assert(self.has(Stage::VertexInput));
            assert(self.has(Stage::InputAssembly));
            assert(self.has(Stage::Viewport));
            assert(self.has(Stage::Rasterizer));
            assert(self.has(Stage::Multisample));
            assert(self.has(Stage::ColorBlend));
            assert(self.has(Stage::Layout));
            assert(self.has(Stage::RenderPass));
        }
        let PipelineBuilder {
            shaders,
            vertex_input_state,
            input_assembly_state,
            viewport_state,
            rasterizer,
            multisample,
            color_blend_state,
            dynamic_state: _,
            layout,
            render_pass,
        } = self;
        match (
            vertex_input_state,
            input_assembly_state,
            viewport_state,
            rasterizer,
            multisample,
            color_blend_state,
            layout,
            render_pass,
        ) {
            (
                Some(vertex_input_state),
                Some(input_assembly_state),
                Some(viewport),
                Some(rasterization_state),
                Some(multisample_state),
                Some(color_blend),
                Some(layout),
                Some(render_pass),
            ) => {
                let mut stages: Vec<ShaderStage> = Vec::new();
                let mut index: usize = 0;
                while index < shaders.len()
                    invariant
                        index <= shaders.len(),
                        stages@ == shaders@.take(index as int).map_values(
                            |shader: Shader| shader.stage(),
                        ),
                    decreases shaders.len() - index,
                {
                    let stage = shaders[index].create_stage();
                    stages.push(stage);
                    proof {
                        assert(shaders@.take(index + 1) =~= shaders@.take(index as int).push(
                            shaders@[index as int],
                        ));
                        assert(stages@ =~= shaders@.take(index + 1).map_values(
                            |shader: Shader| shader.stage(),
                        ));
                    }
                    index += 1;
                }
                proof {
                    assert(shaders@.take(shaders@.len() as int) =~= shaders@);
                }
                Ok(
                    Pipeline {
                        stage_count: STAGE_COUNT,
                        stages,
                        vertex_input_state,
                        input_assembly_state,
                        viewport_state: viewport.create(),
                        rasterization_state,
                        multisample_state,
                        color_blend_state: color_blend.create(),
                        subpass: 0,
                        render_pass,
                        layout,
                        shaders,
                    },
                )
            },
            _ => {
                assert(false);
                Err(BuildError { missing })
            },
        }
    }
}

/// Every stage is one of the mandatory stages.
pub proof fn every_stage_is_mandatory(stage: Stage)
    ensures
        mandatory_stages().contains(stage),
{
    let all = mandatory_stages();
    match stage {
        Stage::VertexInput => assert(all[0] == stage),
        Stage::InputAssembly => assert(all[1] == stage),
        Stage::Viewport => assert(all[2] == stage),
        Stage::Rasterizer => assert(all[3] == stage),
        Stage::Multisample => assert(all[4] == stage),
        Stage::ColorBlend => assert(all[5] == stage),
        Stage::Layout => assert(all[6] == stage),
        Stage::RenderPass => assert(all[7] == stage),
    }
}

/// The failure names every stage that is missing and no other: a mandatory stage
/// is in the list exactly when it has not been configured.
pub proof fn missing_stage_is_named(builder: PipelineBuilder, stage: Stage)
    ensures
        builder.missing_stages().contains(stage) <==> !builder.has(stage),
{
    let all = mandatory_stages();
    let lacking = |stage: Stage| !builder.has(stage);
    let missing = all.filter(lacking);
    if missing.contains(stage) {
        let i = choose|i: int| 0 <= i < missing.len() && missing[i] == stage;
        all.lemma_filter_pred(lacking, i);
    }
    if !builder.has(stage) {
        every_stage_is_mandatory(stage);
        let i = choose|i: int| 0 <= i < all.len() && all[i] == stage;
        all.lemma_filter_contains(lacking, i);
    }
}

/// A builder lacks nothing exactly when all eight mandatory stages have been
/// configured; only then is a pipeline created.
pub proof fn nothing_missing_when_complete(builder: PipelineBuilder)
    ensures
        builder.missing_stages().len() == 0 <==> (forall|stage: Stage| builder.has(stage)),
{
    let missing = builder.missing_stages();
    if missing.len() > 0 {
        assert(missing.contains(missing[0]));
        missing_stage_is_named(builder, missing[0]);
    }
    if missing.len() == 0 {
        assert forall|stage: Stage| builder.has(stage) by {
            missing_stage_is_named(builder, stage);
        }
    }
}

/// A builder that lacks exactly one mandatory stage fails with that stage and
/// nothing else.
pub proof fn single_missing_stage_is_reported(builder: PipelineBuilder, stage: Stage)
    requires
        !builder.has(stage),
        forall|other: Stage| other != stage ==> builder.has(other),
    ensures
        builder.missing_stages() == seq![stage],
{
    let lacking = |stage: Stage| !builder.has(stage);
    let s0 = Seq::<Stage>::empty();
    let s1 = s0.push(Stage::VertexInput);
    let s2 = s1.push(Stage::InputAssembly);
    let s3 = s2.push(Stage::Viewport);
    let s4 = s3.push(Stage::Rasterizer);
    let s5 = s4.push(Stage::Multisample);
    let s6 = s5.push(Stage::ColorBlend);
    let s7 = s6.push(Stage::Layout);
    let s8 = s7.push(Stage::RenderPass);
    assert(s8 =~= mandatory_stages());
    s0.lemma_filter_len(lacking);
    assert(s0.filter(lacking) =~= s0);
    s0.lemma_filter_push(Stage::VertexInput, lacking);
    s1.lemma_filter_push(Stage::InputAssembly, lacking);
    s2.lemma_filter_push(Stage::Viewport, lacking);
    s3.lemma_filter_push(Stage::Rasterizer, lacking);
    s4.lemma_filter_push(Stage::Multisample, lacking);
    s5.lemma_filter_push(Stage::ColorBlend, lacking);
    s6.lemma_filter_push(Stage::Layout, lacking);
    s7.lemma_filter_push(Stage::RenderPass, lacking);
    assert(builder.has(Stage::VertexInput) || stage == Stage::VertexInput);
    assert(builder.has(Stage::InputAssembly) || stage == Stage::InputAssembly);
    assert(builder.has(Stage::Viewport) || stage == Stage::Viewport);
    assert(builder.has(Stage::Rasterizer) || stage == Stage::Rasterizer);
    assert(builder.has(Stage::Multisample) || stage == Stage::Multisample);
    assert(builder.has(Stage::ColorBlend) || stage == Stage::ColorBlend);
    assert(builder.has(Stage::Layout) || stage == Stage::Layout);
    assert(builder.has(Stage::RenderPass) || stage == Stage::RenderPass);
    assert(s8.filter(lacking) =~= seq![stage]);
}

/// Whatever pipeline is made from a builder holds the render pass and the layout
/// that the builder was given last.
pub proof fn pipeline_keeps_what_was_supplied(
    pipeline: Pipeline,
    builder: PipelineBuilder,
    layout: PipelineLayout,
    render_pass: RenderPass,
)
    requires
        pipeline.made_from(builder),
        builder.layout == Some(layout),
        builder.render_pass == Some(render_pass),
    ensures
        pipeline.layout == layout,
        pipeline.render_pass == render_pass,
{
}

} // verus!
