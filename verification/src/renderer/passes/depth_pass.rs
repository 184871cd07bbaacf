//! The depth buffer and the pass that shows it.
//!
//! The depth pass owns the depth attachment of the frame. The attachment
//! has the size of the surface, with a pixel at least in each direction,
//! and is made anew whenever the surface changes its size.
use vstd::prelude::*;
use crate::renderer::passes::BindGroupRef;
use crate::renderer::passes::BufferRef;
use crate::renderer::passes::DrawCommand;
use crate::renderer::passes::IndexFormat;
use crate::renderer::passes::IndexRange;
use crate::renderer::passes::LoadOp;
use crate::renderer::passes::PassKind;
use crate::renderer::passes::RenderPass;
use crate::renderer::passes::SurfaceConfiguration;

verus! {

/// The number of indices that draw the full screen quad.
pub const QUAD_INDEX_COUNT: u32 = 6;

/// The size of a texture in pixels.
#[derive(Clone, Copy, Debug, PartialEq, Eq, Structural)]
pub struct Extent {
    pub width: u32,
    pub height: u32,
}

/// The depth pre-pass resources and the depth visualization.
pub struct DepthPass {
    /// The size of the depth texture.
    extent: Extent,
}

impl DepthPass {
    /// The size of the depth texture for a surface: that of the surface,
    /// with one in place of a zero.
    pub open spec fn extent_for(surface_config: SurfaceConfiguration) -> Extent {
        Extent {
            width: if surface_config.width == 0 {
                1
            } else {
                surface_config.width
            },
            height: if surface_config.height == 0 {
                1
            } else {
                surface_config.height
            },
        }
    }

    /// The size of the depth texture.
    pub closed spec fn extent(&self) -> Extent {
        self.extent
    }

    /// The commands of the visualization: bind the depth texture and the
    /// quad, then draw the quad once.
    pub open spec fn commands() -> Seq<DrawCommand> {
        seq![
            DrawCommand::SetBindGroup { index: 0, bind_group: BindGroupRef::DepthTexture },
            DrawCommand::SetVertexBuffer { slot: 0, buffer: BufferRef::QuadVertices },
            DrawCommand::SetIndexBuffer {
                buffer: BufferRef::QuadIndices,
                index_format: IndexFormat::Uint16,
            },
            DrawCommand::DrawIndexed {
                indices: IndexRange { start: 0, end: QUAD_INDEX_COUNT },
                base_vertex: 0,
                instances: IndexRange { start: 0, end: 1 },
            },
        ]
    }

    fn create_depth_texture(surface_config: &SurfaceConfiguration) -> (extent: Extent)
        ensures
            extent == Self::extent_for(*surface_config),
    {
        Extent {
            width: if surface_config.width == 0 {
                1
            } else {
                surface_config.width
            },
            height: if surface_config.height == 0 {
                1
            } else {
                surface_config.height
            },
        }
    }

    /// A depth pass for a surface.
    pub fn new(surface_config: &SurfaceConfiguration) -> (pass: Self)
        ensures
            pass.extent() == Self::extent_for(*surface_config),
    {
        DepthPass { extent: Self::create_depth_texture(surface_config) }
    }

    /// The size of the depth texture.
    pub fn depth_texture_extent(&self) -> (extent: Extent)
        ensures
            extent == self.extent(),
    {
        self.extent
    }

    /// Takes the new size of the surface. Must be called after the surface
    /// was reconfigured. Returns the size with which the host makes the
    /// depth texture, and the bind group that reads it, anew.
    pub fn resize(&mut self, surface_config: &SurfaceConfiguration) -> (extent: Extent)
        ensures
            extent == Self::extent_for(*surface_config),
            final(self).extent() == extent,
    {
        self.extent = Self::create_depth_texture(surface_config);
        self.extent
    }

    /// The pass that shows the depth buffer on a full screen quad. It draws
    /// over the colour attachment and has no depth attachment of its own.
    pub fn draw(&self) -> (pass: RenderPass)
        ensures
            pass.kind == PassKind::DepthVisualization,
            pass.color_load == LoadOp::Load,
            pass.depth_load == None::<LoadOp>,
            pass.commands@ == Self::commands(),
    {
        let mut commands: Vec<DrawCommand> = Vec::new();
        commands.push(
            DrawCommand::SetBindGroup { index: 0, bind_group: BindGroupRef::DepthTexture },
        );
        commands.push(DrawCommand::SetVertexBuffer { slot: 0, buffer: BufferRef::QuadVertices });
        commands.push(
            DrawCommand::SetIndexBuffer {
                buffer: BufferRef::QuadIndices,
                index_format: IndexFormat::Uint16,
            },
        );
        commands.push(
            DrawCommand::DrawIndexed {
                indices: IndexRange { start: 0, end: QUAD_INDEX_COUNT },
                base_vertex: 0,
                instances: IndexRange { start: 0, end: 1 },
            },
        );
        assert(commands@ =~= Self::commands());
        RenderPass {
            kind: PassKind::DepthVisualization,
            color_load: LoadOp::Load,
            depth_load: None,
            commands,
        }
    }
}

} // verus!
