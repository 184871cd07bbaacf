//! Render passes as lists of commands.
//!
//! A pass says which pipeline runs, how its attachments start out and which
//! draw commands it records, in order. The host replays a pass against the
//! graphics backend; nothing here talks to a GPU.
pub mod depth_pass;
pub mod light_debug_pass;

use vstd::prelude::*;
use crate::renderer::gpu_buffers::BindGroupId;
use crate::renderer::gpu_buffers::BufferId;
use crate::renderer::model_slots::ModelShaderValsKey;

verus! {

/// The part of a surface's configuration that the core reads.
#[derive(Clone, Copy, Debug, PartialEq, Eq, Structural)]
pub struct SurfaceConfiguration {
    /// The width of the surface in pixels.
    pub width: u32,
    /// The height of the surface in pixels.
    pub height: u32,
    /// Whether the surface's texture format is an sRGB format.
    pub format_is_srgb: bool,
}

/// What a pass does to an attachment before it draws.
#[derive(Clone, Copy, Debug, PartialEq, Eq, Structural)]
pub enum LoadOp {
    /// Start from the clear value: opaque black for colour, the far plane
    /// for depth.
    Clear,
    /// Keep what earlier passes left.
    Load,
}

/// The passes of a frame.
#[derive(Clone, Copy, Debug, PartialEq, Eq, Structural)]
pub enum PassKind {
    /// The lit scene: every model, depth tested.
    Main,
    /// A small cube at each point light, over the scene.
    LightDebug,
    /// The depth buffer shown on a full screen quad.
    DepthVisualization,
}

/// The size of index buffer elements.
#[derive(Clone, Copy, Debug, PartialEq, Eq, Structural)]
pub enum IndexFormat {
    Uint16,
    Uint32,
}

/// A bind group that a pass binds.
#[derive(Clone, Copy, Debug, PartialEq, Eq)]
pub enum BindGroupRef {
    /// The per-frame uniforms.
    PerFrame,
    /// The uniforms of the model whose shader values live under `key`.
    PerModel { key: ModelShaderValsKey },
    /// The uniforms and textures of a submesh.
    PerSubmesh { bind_group: BindGroupId },
    /// The depth texture and its sampler.
    DepthTexture,
}

/// A buffer that a pass binds.
#[derive(Clone, Copy, Debug, PartialEq, Eq, Structural)]
pub enum BufferRef {
    /// A vertex or index buffer of a mesh.
    Mesh { buffer: BufferId },
    /// The vertices of the unit cube that marks a light.
    DebugCubeVertices,
    /// The indices of the unit cube that marks a light.
    DebugCubeIndices,
    /// The per-instance records of the light markers.
    LampInstances,
    /// The vertices of the full screen quad.
    QuadVertices,
    /// The indices of the full screen quad.
    QuadIndices,
}

/// The numbers from `start` up to, but not including, `end`.
#[derive(Clone, Copy, Debug, PartialEq, Eq, Structural)]
pub struct IndexRange {
    pub start: u32,
    pub end: u32,
}

/// One recorded command.
#[derive(Clone, Copy, Debug, PartialEq, Eq)]
pub enum DrawCommand {
    SetBindGroup { index: u32, bind_group: BindGroupRef },
    SetVertexBuffer { slot: u32, buffer: BufferRef },
    SetIndexBuffer { buffer: BufferRef, index_format: IndexFormat },
    DrawIndexed { indices: IndexRange, base_vertex: i32, instances: IndexRange },
}

/// One render pass: its attachments' load operations and its commands.
pub struct RenderPass {
    pub kind: PassKind,
    /// What happens to the colour attachment before the pass draws.
    pub color_load: LoadOp,
    /// What happens to the depth attachment before the pass draws; none
    /// where the pass has no depth attachment.
    pub depth_load: Option<LoadOp>,
    pub commands: Vec<DrawCommand>,
}

impl RenderPass {
    /// The pass that draws the lit scene: it clears colour and depth.
    pub fn main() -> (pass: Self)
        ensures
            pass.kind == PassKind::Main,
            pass.color_load == LoadOp::Clear,
            pass.depth_load == Some(LoadOp::Clear),
            pass.commands@ == Seq::<DrawCommand>::empty(),
    {
        RenderPass {
            kind: PassKind::Main,
            color_load: LoadOp::Clear,
            depth_load: Some(LoadOp::Clear),
            commands: Vec::new(),
        }
    }
}

} // verus!
