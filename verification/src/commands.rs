//! Command recording: the per-swapchain-image command sequence, built once at
//! swapchain-(re)build time and immutable until the next rebuild.

use vstd::prelude::*;

verus! {

/// The bit pattern of the float depth-clear value one.
pub const DEPTH_CLEAR_BITS: u32 = 0x3F800000;

/// The clear values of the render pass: an opaque black background and a
/// depth of one, channels held as float bit patterns.
#[derive(Clone, Copy, Debug, PartialEq, Eq, Structural)]
pub struct ClearValues {
    pub color_r: u32,
    pub color_g: u32,
    pub color_b: u32,
    pub color_a: u32,
    pub depth: u32,
    pub stencil: u32,
}

/// Builds the fixed clear values: black with full alpha, depth one, stencil
/// zero.
pub fn clear_values() -> (r: ClearValues)
    ensures
        r == (ClearValues {
            color_r: 0,
            color_g: 0,
            color_b: 0,
            color_a: DEPTH_CLEAR_BITS,
            depth: DEPTH_CLEAR_BITS,
            stencil: 0,
        }),
{
    ClearValues {
        color_r: 0,
        color_g: 0,
        color_b: 0,
        color_a: DEPTH_CLEAR_BITS,
        depth: DEPTH_CLEAR_BITS,
        stencil: 0,
    }
}

/// One recorded command of the per-image command buffer.
#[derive(Clone, Copy, Debug, PartialEq, Eq, Structural)]
pub enum DrawCommand {
    /// Begin the render pass on the image's framebuffer, clearing color and
    /// depth.
    BeginRenderPass { image: usize },
    /// Bind the one graphics pipeline.
    BindPipeline,
    /// Bind the image's descriptor set.
    BindDescriptorSet { image: usize },
    /// Bind the vertex buffer of one model object.
    BindVertexBuffer { object: usize },
    /// Bind the index buffer of one model object.
    BindIndexBuffer { object: usize },
    /// Draw one model object's indexed geometry.
    DrawIndexed { index_count: u32 },
    /// End the render pass.
    EndRenderPass,
}

/// The per-object part of the recording: bind the object's vertex and index
/// buffers, then draw its indices; objects in order.
pub open spec fn spec_object_commands(index_counts: Seq<u32>) -> Seq<DrawCommand>
    decreases index_counts.len(),
{
    if index_counts.len() == 0 {
        Seq::empty()
    } else {
        let o = index_counts.len() - 1;
        spec_object_commands(index_counts.drop_last()) + seq![
            DrawCommand::BindVertexBuffer { object: o as usize },
            DrawCommand::BindIndexBuffer { object: o as usize },
            DrawCommand::DrawIndexed { index_count: index_counts.last() },
        ]
    }
}

/// The whole recording for one image: begin the pass, bind the pipeline and
/// the image's descriptor set, draw each object, end the pass.
pub open spec fn spec_command_buffer(image: usize, index_counts: Seq<u32>) -> Seq<DrawCommand> {
    seq![
        DrawCommand::BeginRenderPass { image },
        DrawCommand::BindPipeline,
        DrawCommand::BindDescriptorSet { image },
    ] + spec_object_commands(index_counts) + seq![DrawCommand::EndRenderPass]
}

/// Records the command buffer of one swapchain image: the render pass over
/// every loaded model object, one indexed draw per object.
/// `index_counts[o]` is the number of indices of object `o`.
pub fn record_command_buffer(image: usize, index_counts: &Vec<u32>) -> (r: Vec<DrawCommand>)
    ensures
        r@ == spec_command_buffer(image, index_counts@),
{
    let n = index_counts.len();
    let mut r: Vec<DrawCommand> = Vec::new();
    r.push(DrawCommand::BeginRenderPass { image });
    r.push(DrawCommand::BindPipeline);
    r.push(DrawCommand::BindDescriptorSet { image });
    let ghost header = r@;
    let mut k: usize = 0;
    while k < n
        invariant
            n == index_counts@.len(),
            0 <= k <= n,
            header == seq![
                DrawCommand::BeginRenderPass { image },
                DrawCommand::BindPipeline,
                DrawCommand::BindDescriptorSet { image },
            ],
            r@ == header + spec_object_commands(index_counts@.subrange(0, k as int)),
        decreases n - k,
    {
        r.push(DrawCommand::BindVertexBuffer { object: k });
        r.push(DrawCommand::BindIndexBuffer { object: k });
        r.push(DrawCommand::DrawIndexed { index_count: index_counts[k] });
        proof {
            assert(index_counts@.subrange(0, k + 1 as int).drop_last() =~= index_counts@.subrange(
                0,
                k as int,
            ));
            assert(index_counts@.subrange(0, k + 1 as int).last() == index_counts@[k as int]);
            assert(r@ =~= header + spec_object_commands(index_counts@.subrange(0, k + 1 as int)));
        }
        k = k + 1;
    }
    r.push(DrawCommand::EndRenderPass);
    proof {
        assert(index_counts@.subrange(0, n as int) =~= index_counts@);
        assert(r@ =~= spec_command_buffer(image, index_counts@));
    }
    r
}

} // verus!
