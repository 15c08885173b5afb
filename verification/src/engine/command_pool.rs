//! The command pool and what its buffers record.
//!
//! The buffers are recorded once, before the first frame, and submitted again
//! and again. [`CommandPool::setup_command_buffers`] writes the recording down as
//! a list of commands for the host to issue in order.

use crate::engine::pipeline::{Offset2D, Pipeline, PipelineBindPoint, Rect2D, RenderPass, Rgba};
use crate::engine::surface::Extent2D;
use vstd::prelude::*;

verus! {

/// The level of a command buffer.
#[derive(Clone, Copy, Debug, PartialEq, Eq, Structural)]
pub enum CommandBufferLevel {
    Primary,
    Secondary,
}

/// How a command buffer will be used.
#[derive(Clone, Copy, Debug, PartialEq, Eq, Structural)]
pub enum CommandBufferUsage {
    /// The buffer may be submitted again while an earlier submission of it is
    /// still pending.
    SimultaneousUse,
}

/// How the commands of a subpass are given.
#[derive(Clone, Copy, Debug, PartialEq, Eq, Structural)]
pub enum SubpassContents {
    Inline,
}

/// A command pool and the buffers allocated from it.
#[derive(Clone, Copy, Debug, PartialEq, Eq, Structural)]
pub struct CommandPool {
    /// The queue family whose queues the buffers are submitted to.
    pub queue_family_index: u32,
    pub level: CommandBufferLevel,
    /// The number of buffers: one for each framebuffer.
    pub command_buffer_count: u32,
}

/// One step of a recording. Buffers, framebuffers and pipelines are named by
/// their index.
#[derive(Clone, Copy, Debug, PartialEq, Eq, Structural)]
pub enum Command {
    Begin { buffer: u32, usage: CommandBufferUsage },
    BeginRenderPass {
        buffer: u32,
        render_pass: RenderPass,
        framebuffer: u32,
        render_area: Rect2D,
        clear_value_count: u32,
        clear_color: Rgba,
        contents: SubpassContents,
    },
    BindPipeline { buffer: u32, bind_point: PipelineBindPoint, pipeline: u32 },
    Draw { buffer: u32, vertex_count: u32, instance_count: u32, first_vertex: u32, first_instance: u32 },
    EndRenderPass { buffer: u32 },
    End { buffer: u32 },
}

/// The colour that the attachment is cleared to: opaque black.
pub open spec fn clear_color() -> Rgba {
    Rgba { red: 0, green: 0, blue: 0, alpha: 1 }
}

/// What one buffer records for one framebuffer: a render pass over the whole
/// surface that clears the attachment, binds the first pipeline and draws three
/// vertices, once.
pub open spec fn pass(
    buffer: u32,
    framebuffer: u32,
    render_pass: RenderPass,
    surface_resolution: Extent2D,
) -> Seq<Command> {
    seq![
        Command::BeginRenderPass {
            buffer,
            render_pass,
            framebuffer,
            render_area: Rect2D { offset: Offset2D { x: 0, y: 0 }, extent: surface_resolution },
            clear_value_count: 1,
            clear_color: clear_color(),
            contents: SubpassContents::Inline,
        },
        Command::BindPipeline { buffer, bind_point: PipelineBindPoint::Graphics, pipeline: 0 },
        Command::Draw {
            buffer,
            vertex_count: 3,
            instance_count: 1,
            first_vertex: 0,
            first_instance: 0,
        },
        Command::EndRenderPass { buffer },
    ]
}

/// What one buffer records for the first `framebuffers` framebuffers, in their
/// order.
pub open spec fn passes(
    buffer: u32,
    framebuffers: nat,
    render_pass: RenderPass,
    surface_resolution: Extent2D,
) -> Seq<Command>
    decreases framebuffers,
{
    if framebuffers == 0 {
        Seq::empty()
    } else {
        passes(buffer, (framebuffers - 1) as nat, render_pass, surface_resolution) + pass(
            buffer,
            (framebuffers - 1) as u32,
            render_pass,
            surface_resolution,
        )
    }
}

/// The whole recording of one buffer: begin, a pass for every framebuffer, end.
pub open spec fn recording(
    buffer: u32,
    framebuffers: nat,
    render_pass: RenderPass,
    surface_resolution: Extent2D,
) -> Seq<Command> {
    seq![Command::Begin { buffer, usage: CommandBufferUsage::SimultaneousUse }] + passes(
        buffer,
        framebuffers,
        render_pass,
        surface_resolution,
    ) + seq![Command::End { buffer }]
}

/// The recordings of the first `buffers` buffers, one after the other.
pub open spec fn recordings(
    buffers: nat,
    framebuffers: nat,
    render_pass: RenderPass,
    surface_resolution: Extent2D,
) -> Seq<Command>
    decreases buffers,
{
    if buffers == 0 {
        Seq::empty()
    } else {
        recordings((buffers - 1) as nat, framebuffers, render_pass, surface_resolution)
            + recording((buffers - 1) as u32, framebuffers, render_pass, surface_resolution)
    }
}

impl CommandPool {
    /// Describes a pool for a queue family, with one primary buffer for each
    /// framebuffer.
    pub fn new(swapchain_buffers_len: u32, queue_index: u32) -> (pool: CommandPool)
        ensures
            pool == (CommandPool {
                queue_family_index: queue_index,
                level: CommandBufferLevel::Primary,
                command_buffer_count: swapchain_buffers_len,
            }),
    {
        CommandPool {
            queue_family_index: queue_index,
            level: CommandBufferLevel::Primary,
            command_buffer_count: swapchain_buffers_len,
        }
    }

    /// Writes down what the pool's buffers record, buffer after buffer: each
    /// buffer draws the same triangle into every one of the `swapchain_buffers`
    /// framebuffers, with the render pass of the pipeline.
    pub fn setup_command_buffers(
        &self,
        swapchain_buffers: u32,
        graphics_pipelines: &Pipeline,
        surface_resolution: Extent2D,
    ) -> (commands: Vec<Command>)
        ensures
            commands@ == recordings(
                self.command_buffer_count as nat,
                swapchain_buffers as nat,
                graphics_pipelines.render_pass,
                surface_resolution,
            ),
    {
        let render_pass = graphics_pipelines.render_pass;
        let render_area = Rect2D { offset: Offset2D { x: 0, y: 0 }, extent: surface_resolution };
        let mut commands: Vec<Command> = Vec::new();
        let mut buffer: u32 = 0;
        while buffer < self.command_buffer_count
            invariant
                buffer <= self.command_buffer_count,
                render_area == (Rect2D {
                    offset: Offset2D { x: 0, y: 0 },
                    extent: surface_resolution,
                }),
                commands@ == recordings(
                    buffer as nat,
                    swapchain_buffers as nat,
                    render_pass,
                    surface_resolution,
                ),
            decreases self.command_buffer_count - buffer,
        {
            let ghost before = commands@;
            commands.push(Command::Begin { buffer, usage: CommandBufferUsage::SimultaneousUse });
            let mut framebuffer: u32 = 0;
            while framebuffer < swapchain_buffers
                invariant
                    framebuffer <= swapchain_buffers,
                    render_area == (Rect2D {
                        offset: Offset2D { x: 0, y: 0 },
                        extent: surface_resolution,
                    }),
                    commands@ == before + seq![
                        Command::Begin { buffer, usage: CommandBufferUsage::SimultaneousUse },
                    ] + passes(buffer, framebuffer as nat, render_pass, surface_resolution),
                decreases swapchain_buffers - framebuffer,
            {
                let ghost recorded = commands@;
                commands.push(
                    Command::BeginRenderPass {
                        buffer,
                        render_pass,
                        framebuffer,
                        render_area,
                        clear_value_count: 1,
                        clear_color: Rgba { red: 0, green: 0, blue: 0, alpha: 1 },
                        contents: SubpassContents::Inline,
                    },
                );
                commands.push(
                    Command::BindPipeline {
                        buffer,
                        bind_point: PipelineBindPoint::Graphics,
                        pipeline: 0,
                    },
                );
                commands.push(
                    Command::Draw {
                        buffer,
                        vertex_count: 3,
                        instance_count: 1,
                        first_vertex: 0,
                        first_instance: 0,
                    },
                );
                commands.push(Command::EndRenderPass { buffer });
                proof {
                    assert(commands@ =~= recorded + pass(
                        buffer,
                        framebuffer,
                        render_pass,
                        surface_resolution,
                    ));
                    assert(commands@ =~= before + seq![
                        Command::Begin { buffer, usage: CommandBufferUsage::SimultaneousUse },
                    ] + passes(buffer, (framebuffer + 1) as nat, render_pass, surface_resolution));
                }
                framebuffer += 1;
            }
            commands.push(Command::End { buffer });
            proof {
                assert(commands@ =~= before + recording(
                    buffer,
                    swapchain_buffers as nat,
                    render_pass,
                    surface_resolution,
                ));
            }
            buffer += 1;
        }
        commands
    }
}

} // verus!
