//! The command recorder's plan: the exact sequence of commands recorded
//! into each swapchain image's command buffer. The caller replays the
//! plan against the GPU; the fixed clear values it applies are opaque
//! black for color and 1.0/0 for depth/stencil.

use vstd::prelude::*;

verus! {

/// One recorded command.
#[derive(Clone, Copy, Debug, PartialEq, Eq, Structural)]
pub enum DrawCommand {
    /// Begin the render pass against the image's framebuffer, clearing
    /// color and depth.
    BeginRenderPass { framebuffer: usize },
    BindPipeline,
    BindVertexBuffer,
    /// Bind the 32-bit index buffer.
    BindIndexBuffer,
    /// Bind the image's own descriptor set.
    BindDescriptorSet { set: usize },
    /// One indexed draw covering the whole index buffer.
    DrawIndexed { index_count: u32 },
    EndRenderPass,
}

/// The command sequence recorded for swapchain image `image`: one render
/// pass binding the pipeline, the vertex and index buffers and the
/// image's descriptor set, then a single indexed draw over all
/// `index_count` indices.
pub open spec fn command_sequence(image: usize, index_count: u32) -> Seq<DrawCommand> {
    seq![
        DrawCommand::BeginRenderPass { framebuffer: image },
        DrawCommand::BindPipeline,
        DrawCommand::BindVertexBuffer,
        DrawCommand::BindIndexBuffer,
        DrawCommand::BindDescriptorSet { set: image },
        DrawCommand::DrawIndexed { index_count },
        DrawCommand::EndRenderPass,
    ]
}

/// Records the plan for one swapchain image's command buffer.
pub fn record_command_buffer(image: usize, index_count: u32) -> (r: Vec<DrawCommand>)
    ensures
        r@ == command_sequence(image, index_count),
{
    let mut commands: Vec<DrawCommand> = Vec::new();
    commands.push(DrawCommand::BeginRenderPass { framebuffer: image });
    commands.push(DrawCommand::BindPipeline);
    commands.push(DrawCommand::BindVertexBuffer);
    commands.push(DrawCommand::BindIndexBuffer);
    commands.push(DrawCommand::BindDescriptorSet { set: image });
    commands.push(DrawCommand::DrawIndexed { index_count });
    commands.push(DrawCommand::EndRenderPass);
    proof {
        assert(commands@ =~= command_sequence(image, index_count));
    }
    commands
}

/// Records the plan for every swapchain image: one command buffer per
/// image, each drawing that image's framebuffer with its descriptor set
/// and the full index buffer. Re-run in full whenever the swapchain is
/// recreated.
pub fn record_command_buffers(image_count: usize, index_count: u32) -> (r: Vec<Vec<DrawCommand>>)
    ensures
        r@.len() == image_count,
        forall|i: int| 0 <= i < image_count
            ==> (#[trigger] r@[i])@ == command_sequence(i as usize, index_count),
{
    let mut buffers: Vec<Vec<DrawCommand>> = Vec::new();
    for i in 0..image_count
        invariant
            buffers@.len() == i,
            forall|j: int| 0 <= j < i
                ==> (#[trigger] buffers@[j])@ == command_sequence(j as usize, index_count),
    {
        buffers.push(record_command_buffer(i, index_count));
    }
    buffers
}

} // verus!
