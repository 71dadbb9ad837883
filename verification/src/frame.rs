//! Per-frame rendering: the exact command sequence one frame executes, and
//! the classification of texture-acquisition failures.
//!
//! Acquiring a texture, encoding, submitting and presenting all talk to the
//! GPU, so the surrounding binary carries the plan out step by step; this
//! module fixes what the plan is. Exactly one frame is ever in flight: a
//! plan is executed to completion on the single dispatch thread before the
//! next one is produced.

use vstd::prelude::*;
use crate::pipeline::RenderPipeline;
use crate::surface::SurfaceConfig;

verus! {

/// The colour the single render pass clears its attachment to.
#[derive(Clone, Copy, Debug, PartialEq, Eq, Structural)]
pub enum ClearColor {
    Green,
}

/// One step of the per-frame command sequence, in execution order.
#[derive(Clone, Copy, Debug, PartialEq, Eq, Structural)]
pub enum FrameStep {
    /// Request the next presentable texture from the surface.
    AcquireTexture,
    /// Create a default texture view over the acquired texture.
    CreateView,
    /// Open a command encoder and begin one render pass whose single colour
    /// attachment is bound to the view, cleared to the given colour and
    /// stored.
    BeginRenderPass { clear: ClearColor },
    /// Bind the one render pipeline.
    SetPipeline,
    /// Issue one draw call: no vertex or index buffers, positions come from
    /// the built-in vertex index.
    Draw { vertex_count: u32, instance_count: u32 },
    /// End the render pass and finish the encoder into one command buffer.
    EndRenderPass,
    /// Submit the finished command buffer to the queue.
    Submit,
    /// Present the acquired texture.
    Present,
}

/// The whole per-frame sequence: acquire, view, encode one pass with one
/// three-vertex single-instance draw, submit once, present once.
pub open spec fn frame_sequence() -> Seq<FrameStep> {
    seq![
        FrameStep::AcquireTexture,
        FrameStep::CreateView,
        FrameStep::BeginRenderPass { clear: ClearColor::Green },
        FrameStep::SetPipeline,
        FrameStep::Draw { vertex_count: 3, instance_count: 1 },
        FrameStep::EndRenderPass,
        FrameStep::Submit,
        FrameStep::Present,
    ]
}

/// Executor of the per-frame sequence.
pub struct FrameRenderer {}

impl FrameRenderer {
    /// Produce the command plan for one frame on a configured surface.
    /// The pipeline's bound output format must equal the applied
    /// configuration's pixel format, and the configuration must have been
    /// applied to the surface since the last resize before the first step
    /// (the acquire) runs.
    pub fn render_frame(pipeline: &RenderPipeline, config: &SurfaceConfig) -> (plan: Vec<
        FrameStep,
    >)
        requires
            pipeline.wf(),
            config@.wf(),
            pipeline.output_format == config@.format,
        ensures
            plan@ == frame_sequence(),
    {
        let mut plan: Vec<FrameStep> = Vec::new();
        plan.push(FrameStep::AcquireTexture);
        plan.push(FrameStep::CreateView);
        plan.push(FrameStep::BeginRenderPass { clear: ClearColor::Green });
        plan.push(FrameStep::SetPipeline);
        plan.push(FrameStep::Draw { vertex_count: 3, instance_count: 1 });
        plan.push(FrameStep::EndRenderPass);
        plan.push(FrameStep::Submit);
        plan.push(FrameStep::Present);
        proof {
            assert(plan@ =~= frame_sequence());
        }
        plan
    }
}

/// The underlying condition when requesting the next presentable texture
/// fails.
#[derive(Clone, Copy, Debug, PartialEq, Eq, Structural)]
pub enum AcquireFailure {
    /// The request timed out; the surface is still usable.
    Timeout,
    /// The surface no longer matches the window; it must be reconfigured.
    Outdated,
    /// The surface is lost and cannot be recovered.
    Lost,
    /// The GPU is out of memory.
    OutOfMemory,
}

impl AcquireFailure {
    /// Whether the condition is recoverable: the current frame is skipped
    /// and the surface reconfigured with the last known window size. A lost
    /// surface or exhausted memory is not recoverable and terminates the
    /// application.
    pub open spec fn spec_recoverable(self) -> bool {
        self == AcquireFailure::Timeout || self == AcquireFailure::Outdated
    }

    /// Classify this failure as recoverable or fatal.
    pub fn recoverable(&self) -> (r: bool)
        ensures
            r == self.spec_recoverable(),
    {
        match self {
            AcquireFailure::Timeout => true,
            AcquireFailure::Outdated => true,
            AcquireFailure::Lost => false,
            AcquireFailure::OutOfMemory => false,
        }
    }
}

} // verus!
