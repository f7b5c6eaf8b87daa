//! The per-frame render as data.
//!
//! Each repaint submits one fixed GPU command sequence: begin a render pass
//! that clears the offscreen texture and stores the result, bind the
//! pipeline, push the pan offset to both shader stages, draw the six
//! vertices of the two triangles that form the quad, end the pass, commit,
//! and block until the GPU signals completion. This module states that
//! sequence exactly, as a function of the pan offset alone, and decides the
//! per-frame faults.

use vstd::prelude::*;
use crate::pan::PanOffset;

verus! {

/// Number of vertices of one frame's single non-indexed draw call: two
/// triangles forming a quad.
pub const QUAD_VERTEX_COUNT: usize = 6;

/// One step of the per-frame GPU command sequence.
#[derive(Clone, Copy, PartialEq, Eq, Structural, Debug)]
pub enum RenderCmd {
    /// Begin a render pass targeting the offscreen texture, clearing it on
    /// load and storing it at the end.
    BeginRenderPass { clear_on_load: bool, store_on_end: bool },
    /// Bind the compiled render pipeline.
    SetPipeline,
    /// Push the pan offset to the vertex stage as inline uniform bytes.
    SetVertexPan { x: i64, y: i64 },
    /// Push the pan offset to the fragment stage as inline uniform bytes.
    SetFragmentPan { x: i64, y: i64 },
    /// Issue one non-indexed triangle draw.
    Draw { first_vertex: usize, vertex_count: usize },
    /// End the render pass.
    EndEncoding,
    /// Submit the recorded commands to the queue.
    Commit,
    /// Block until the GPU has executed the submitted commands.
    WaitUntilCompleted,
}

/// The whole command sequence of one frame, for a given pan offset. It is a
/// function of the pan offset alone.
pub open spec fn spec_frame_commands(pan: PanOffset) -> Seq<RenderCmd> {
    seq![
        RenderCmd::BeginRenderPass { clear_on_load: true, store_on_end: true },
        RenderCmd::SetPipeline,
        RenderCmd::SetVertexPan { x: pan.x, y: pan.y },
        RenderCmd::SetFragmentPan { x: pan.x, y: pan.y },
        RenderCmd::Draw { first_vertex: 0, vertex_count: QUAD_VERTEX_COUNT },
        RenderCmd::EndEncoding,
        RenderCmd::Commit,
        RenderCmd::WaitUntilCompleted,
    ]
}

/// Builds the command sequence one frame submits: clear then draw the six
/// quad vertices with the pan offset pushed to both stages, store, commit,
/// and wait.
pub fn frame_commands(pan: &PanOffset) -> (r: Vec<RenderCmd>)
    ensures
        r@ == spec_frame_commands(*pan),
{
    let mut r: Vec<RenderCmd> = Vec::new();
    r.push(RenderCmd::BeginRenderPass { clear_on_load: true, store_on_end: true });
    r.push(RenderCmd::SetPipeline);
    r.push(RenderCmd::SetVertexPan { x: pan.x, y: pan.y });
    r.push(RenderCmd::SetFragmentPan { x: pan.x, y: pan.y });
    r.push(RenderCmd::Draw { first_vertex: 0, vertex_count: QUAD_VERTEX_COUNT });
    r.push(RenderCmd::EndEncoding);
    r.push(RenderCmd::Commit);
    r.push(RenderCmd::WaitUntilCompleted);
    proof {
        assert(r@ =~= spec_frame_commands(*pan));
    }
    r
}

/// Re-running the render with an unchanged pan offset submits the identical
/// command sequence: the commands the library hands the GPU depend on the
/// pan offset alone.
pub proof fn lemma_frame_commands_deterministic(a: PanOffset, b: PanOffset)
    requires
        a == b,
    ensures
        spec_frame_commands(a) == spec_frame_commands(b),
{
}

/// The per-frame faults, both fatal: the command sequence cannot even be
/// recorded without a command buffer and an encoder.
#[derive(Clone, Copy, PartialEq, Eq, Structural, Debug)]
pub enum FrameError {
    /// The queue refused to create a command buffer.
    CommandBufferCreation,
    /// The command buffer refused to create a render command encoder.
    EncoderCreation,
}

impl FrameError {
    /// The descriptive message the application aborts with for this fault.
    pub fn message(&self) -> (m: &'static str)
        ensures
            *self is CommandBufferCreation ==> m@ == "Failed to create command buffer"@,
            *self is EncoderCreation ==> m@ == "failed to create render command encoder"@,
    {
        match self {
            FrameError::CommandBufferCreation => "Failed to create command buffer",
            FrameError::EncoderCreation => "failed to create render command encoder",
        }
    }
}

/// Decides whether a frame can be recorded: a missing command buffer is
/// reported first, then a missing encoder; with both present the frame
/// proceeds.
pub fn frame_outcome(command_buffer_ok: bool, encoder_ok: bool) -> (r: Result<(), FrameError>)
    ensures
        !command_buffer_ok ==> r == Err::<(), FrameError>(FrameError::CommandBufferCreation),
        command_buffer_ok && !encoder_ok ==> r == Err::<(), FrameError>(
            FrameError::EncoderCreation,
        ),
        r is Ok <==> command_buffer_ok && encoder_ok,
{
    if !command_buffer_ok {
        Err(FrameError::CommandBufferCreation)
    } else if !encoder_ok {
        Err(FrameError::EncoderCreation)
    } else {
        Ok(())
    }
}

} // verus!
