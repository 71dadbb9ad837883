//! Pipeline construction: the immutable render pipeline description this
//! system builds exactly once, bound to the surface's pixel format.
//!
//! The shader module is an opaque compiled collaborator exposing two named
//! entry points; compiling it and creating the GPU pipeline object are the
//! binary's work. This module fixes every decision that goes into the
//! pipeline: topology, entry points, the absence of buffers, bind groups,
//! depth/stencil and multisampling, and the single colour target format.

use vstd::prelude::*;
use crate::surface::PixelFormat;

verus! {

/// Primitive assembly of the single draw call.
#[derive(Clone, Copy, Debug, PartialEq, Eq, Structural)]
pub enum PrimitiveTopology {
    /// Every three vertices form one independent triangle.
    TriangleList,
}

/// Description of the one render pipeline, immutable once built. Its output
/// format is captured at construction time; if the surface format ever
/// changed, the pipeline would have to be rebuilt.
#[derive(Clone, Copy, Debug, PartialEq, Eq, Structural)]
pub struct RenderPipeline {
    /// Pixel format of the single colour target.
    pub output_format: PixelFormat,
    pub topology: PrimitiveTopology,
    /// Number of vertex buffer layouts; this pipeline binds none.
    pub vertex_buffer_count: u32,
    /// Number of bind group layouts; the pipeline layout is empty.
    pub bind_group_count: u32,
    /// Whether a depth/stencil attachment is used.
    pub has_depth_stencil: bool,
    /// Samples per pixel; 1 means no multisampling.
    pub sample_count: u32,
}

impl RenderPipeline {
    /// Fixed-function shape of the one pipeline this system supports:
    /// triangle-list topology, no vertex buffers, no bind groups, no
    /// depth/stencil attachment, no multisampling.
    pub open spec fn wf(self) -> bool {
        &&& self.topology == PrimitiveTopology::TriangleList
        &&& self.vertex_buffer_count == 0
        &&& self.bind_group_count == 0
        &&& !self.has_depth_stencil
        &&& self.sample_count == 1
    }
}

/// The one pipeline this system builds for a given surface pixel format.
pub open spec fn pipeline_model(surface_format: PixelFormat) -> RenderPipeline {
    RenderPipeline {
        output_format: surface_format,
        topology: PrimitiveTopology::TriangleList,
        vertex_buffer_count: 0,
        bind_group_count: 0,
        has_depth_stencil: false,
        sample_count: 1,
    }
}

/// Builder of the one render pipeline.
pub struct PipelineBuilder {}

impl PipelineBuilder {
    /// Assemble the pipeline description whose single colour target has
    /// exactly the given surface pixel format.
    pub fn build(surface_format: PixelFormat) -> (p: RenderPipeline)
        ensures
            p == pipeline_model(surface_format),
            p.output_format == surface_format,
            p.wf(),
    {
        RenderPipeline {
            output_format: surface_format,
            topology: PrimitiveTopology::TriangleList,
            vertex_buffer_count: 0,
            bind_group_count: 0,
            has_depth_stencil: false,
            sample_count: 1,
        }
    }

    /// Name of the vertex entry point the shader module exposes: it takes
    /// only the built-in vertex index and synthesizes one of three
    /// triangle-corner positions.
    pub fn vertex_entry_point() -> (s: String)
        ensures
            s@ == "vs_main"@,
    {
        proof {
            reveal_strlit("vs_main");
        }
        "vs_main".to_string()
    }

    /// Name of the fragment entry point the shader module exposes: it
    /// produces a constant output colour.
    pub fn fragment_entry_point() -> (s: String)
        ensures
            s@ == "fs_main"@,
    {
        proof {
            reveal_strlit("fs_main");
        }
        "fs_main".to_string()
    }
}

} // verus!
