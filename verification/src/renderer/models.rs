//! Meshes, their submeshes, and the models that place a mesh in the world.
use vstd::prelude::*;
use core::ops::Range;
use std::rc::Rc;
use crate::math::Quat;
use crate::math::Vec2;
use crate::math::Vec3;
use crate::renderer::gpu_buffers::BindGroupId;
use crate::renderer::gpu_buffers::BufferId;
use crate::renderer::materials::Material;
use crate::renderer::model_slots::ModelShaderValsKey;
use crate::renderer::passes::BindGroupRef;
use crate::renderer::passes::BufferRef;
use crate::renderer::passes::DrawCommand;
use crate::renderer::passes::IndexFormat;
use crate::renderer::passes::IndexRange;
use crate::renderer::passes::RenderPass;
use crate::renderer::shaders::PerModelShaderVals;
use crate::renderer::shaders::PER_MODEL_GROUP;
use crate::renderer::shaders::PER_SUBMESH_GROUP;
use crate::renderer::shaders::PerSubmeshShaderVals;

verus! {

/// Vertex format used by model meshes.
#[derive(Clone, Copy, Debug, PartialEq, Eq, Structural)]
pub struct Vertex {
    pub position: Vec3,
    pub normal: Vec3,
    pub tex_coords: Vec2,
}

/// A subpart of a larger mesh which has its own shader uniforms.
pub struct Submesh {
    /// Uniform values associated with this submesh.
    submesh_shader_vals: PerSubmeshShaderVals,
    /// The indices used when rendering this submesh.
    indices: Range<u32>,
    /// Base vertex used when rendering this submesh.
    base_vertex: i32,
}

impl Submesh {
    /// The shader values of the submesh.
    pub closed spec fn shader_vals(&self) -> PerSubmeshShaderVals {
        self.submesh_shader_vals
    }

    /// The index range `[start, end)` of the submesh.
    pub closed spec fn index_range(&self) -> Range<u32> {
        self.indices
    }

    /// The offset that is added to each index of the submesh.
    pub closed spec fn vertex_offset(&self) -> i32 {
        self.base_vertex
    }

    /// The two commands that draw the submesh: bind its bind group in slot
    /// `PER_SUBMESH_GROUP`, then draw its index range once.
    pub open spec fn commands(&self) -> Seq<DrawCommand> {
        seq![
            DrawCommand::SetBindGroup {
                index: PER_SUBMESH_GROUP,
                bind_group: BindGroupRef::PerSubmesh {
                    bind_group: self.shader_vals().bind_group_spec(),
                },
            },
            DrawCommand::DrawIndexed {
                indices: IndexRange {
                    start: self.index_range().start,
                    end: self.index_range().end,
                },
                base_vertex: self.vertex_offset(),
                instances: IndexRange { start: 0, end: 1 },
            },
        ]
    }

    /// A submesh that draws the indices in `indices`, each offset by
    /// `base_vertex`, with `material`, bound through `bind_group`.
    pub fn new(
        bind_group: BindGroupId,
        indices: Range<u32>,
        base_vertex: i32,
        material: &Material,
    ) -> (submesh: Self)
        ensures
            submesh.index_range() == indices,
            submesh.vertex_offset() == base_vertex,
            submesh.shader_vals().bind_group_spec() == bind_group,
            submesh.shader_vals().values().material
                == crate::renderer::shaders::packed_structs::PackedMaterialConstants::packed(
                *material,
            ),
            submesh.shader_vals().textures() == (
                material.diffuse_map,
                material.specular_map,
                material.emissive_map,
            ),
            !submesh.shader_vals().dirty(),
    {
        Submesh {
            submesh_shader_vals: PerSubmeshShaderVals::new(bind_group, material),
            indices,
            base_vertex,
        }
    }

    /// The index range `[start, end)` of the submesh.
    pub fn indices(&self) -> (r: Range<u32>)
        ensures
            r == self.index_range(),
    {
        Range { start: self.indices.start, end: self.indices.end }
    }

    /// The offset that is added to each index of the submesh.
    pub fn base_vertex(&self) -> (b: i32)
        ensures
            b == self.vertex_offset(),
    {
        self.base_vertex
    }

    /// The shader values of the submesh.
    pub fn submesh_shader_vals(&self) -> (v: &PerSubmeshShaderVals)
        ensures
            *v == self.shader_vals(),
    {
        &self.submesh_shader_vals
    }
}

/// The largest end of an index range among `submeshes`; zero where there is
/// none.
pub open spec fn max_index_end(submeshes: Seq<Submesh>) -> int
    decreases submeshes.len(),
{
    if submeshes.len() == 0 {
        0
    } else {
        let rest = max_index_end(submeshes.drop_last());
        let end = submeshes.last().index_range().end as int;
        if end > rest {
            end
        } else {
            rest
        }
    }
}

/// The largest index range end bounds every index range end, and it is one
/// of them unless there is none.
pub proof fn lemma_max_index_end(submeshes: Seq<Submesh>)
    ensures
        forall|i: int|
            0 <= i < submeshes.len() ==> #[trigger] submeshes[i].index_range().end
                <= max_index_end(submeshes),
        submeshes.len() == 0 ==> max_index_end(submeshes) == 0,
        submeshes.len() > 0 ==> exists|i: int|
            0 <= i < submeshes.len() && #[trigger] submeshes[i].index_range().end
                == max_index_end(submeshes),
    decreases submeshes.len(),
{
    if submeshes.len() > 0 {
        let rest = submeshes.drop_last();
        lemma_max_index_end(rest);
        assert forall|i: int| 0 <= i < submeshes.len() implies #[trigger] submeshes[i].index_range().end
            <= max_index_end(submeshes) by {
            if i < rest.len() {
                assert(rest[i] == submeshes[i]);
            }
        }
        if rest.len() > 0 && max_index_end(submeshes) == max_index_end(rest) {
            let j = choose|j: int|
                0 <= j < rest.len() && #[trigger] rest[j].index_range().end == max_index_end(rest);
            assert(rest[j] == submeshes[j]);
            assert(submeshes[j].index_range().end == max_index_end(submeshes));
        } else {
            let last = submeshes.len() - 1;
            assert(submeshes[last] == submeshes.last());
            assert(submeshes[last].index_range().end == max_index_end(submeshes));
        }
    }
}

/// Submeshes are taken for an index buffer of `index_count` indices exactly
/// where no submesh ends beyond it: a single submesh that does is enough to
/// have them refused, whatever the others are.
pub proof fn lemma_overrun_is_refused(index_count: u32, submeshes: Seq<Submesh>)
    ensures
        max_index_end(submeshes) <= index_count <==> forall|i: int|
            0 <= i < submeshes.len() ==> (#[trigger] submeshes[i]).index_range().end <= index_count,
        (exists|i: int|
            0 <= i < submeshes.len() && (#[trigger] submeshes[i]).index_range().end > index_count)
            ==> !(max_index_end(submeshes) <= index_count),
{
    lemma_max_index_end(submeshes);
}

/// Mesh definition that is shared among one or more instances of model.
///
/// No submesh of a mesh reaches beyond the mesh's index count.
pub struct Mesh {
    /// A buffer storing this mesh's vertices.
    vertex_buffer: BufferId,
    /// A buffer storing this mesh's indices.
    index_buffer: BufferId,
    /// The number of indices in the index buffer.
    index_count: u32,
    /// Size of the index buffer elements.
    index_format: IndexFormat,
    /// Submeshes that draw a portion of the total mesh.
    submeshes: Vec<Submesh>,
}

/// A mesh as contracts see it.
pub struct MeshView {
    pub vertex_buffer: BufferId,
    pub index_buffer: BufferId,
    pub index_count: u32,
    pub index_format: IndexFormat,
    pub submeshes: Seq<Submesh>,
}

impl MeshView {
    /// No submesh reaches beyond the index count.
    pub open spec fn within_bounds(self) -> bool {
        max_index_end(self.submeshes) <= self.index_count
    }

    /// The commands that draw the first `n` submeshes, in order.
    pub open spec fn submesh_commands(self, n: int) -> Seq<DrawCommand>
        decreases n,
    {
        if n <= 0 {
            Seq::empty()
        } else {
            self.submesh_commands(n - 1) + self.submeshes[n - 1].commands()
        }
    }

    /// The commands that draw the mesh: bind the vertex buffer in slot zero
    /// and the index buffer, then draw each submesh in order.
    pub open spec fn commands(self) -> Seq<DrawCommand> {
        seq![
            DrawCommand::SetVertexBuffer {
                slot: 0,
                buffer: BufferRef::Mesh { buffer: self.vertex_buffer },
            },
            DrawCommand::SetIndexBuffer {
                buffer: BufferRef::Mesh { buffer: self.index_buffer },
                index_format: self.index_format,
            },
        ] + self.submesh_commands(self.submeshes.len() as int)
    }
}

impl View for Mesh {
    type V = MeshView;

    closed spec fn view(&self) -> MeshView {
        MeshView {
            vertex_buffer: self.vertex_buffer,
            index_buffer: self.index_buffer,
            index_count: self.index_count,
            index_format: self.index_format,
            submeshes: self.submeshes@,
        }
    }
}

impl Mesh {
    #[verifier::type_invariant]
    spec fn index_bounds_hold(&self) -> bool {
        max_index_end(self.submeshes@) <= self.index_count
    }

    /// The largest end of an index range among `submeshes`; zero where
    /// there is none.
    pub fn largest_index_end(submeshes: &Vec<Submesh>) -> (end: u32)
        ensures
            end == max_index_end(submeshes@),
    {
        let mut end: u32 = 0;
        let mut i: usize = 0;
        while i < submeshes.len()
            invariant
                0 <= i <= submeshes.len(),
                end == max_index_end(submeshes@.take(i as int)),
            decreases submeshes.len() - i,
        {
            assert(submeshes@.take(i + 1).drop_last() =~= submeshes@.take(i as int));
            let e: u32 = submeshes[i].indices.end;
            if e > end {
                end = e;
            }
            i += 1;
        }
        assert(submeshes@.take(i as int) =~= submeshes@);
        end
    }

    /// Whether `new` takes `submeshes` for an index buffer of `index_count`
    /// indices: no submesh may reach beyond the index buffer.
    pub fn fits(index_count: u32, submeshes: &Vec<Submesh>) -> (ok: bool)
        ensures
            ok == (max_index_end(submeshes@) <= index_count),
    {
        index_count >= Self::largest_index_end(submeshes)
    }

    /// A mesh over the given buffers. Every submesh must end within the
    /// first `index_count` indices.
    pub fn new(
        vertex_buffer: BufferId,
        index_buffer: BufferId,
        index_count: u32,
        index_format: IndexFormat,
        submeshes: Vec<Submesh>,
    ) -> (mesh: Self)
        requires
            max_index_end(submeshes@) <= index_count,
        ensures
            mesh@ == (MeshView {
                vertex_buffer,
                index_buffer,
                index_count,
                index_format,
                submeshes: submeshes@,
            }),
            mesh@.within_bounds(),
    {
        Mesh { vertex_buffer, index_buffer, index_count, index_format, submeshes }
    }

    /// The buffer storing this mesh's vertices.
    pub fn vertex_buffer(&self) -> (id: BufferId)
        ensures
            id == self@.vertex_buffer,
    {
        self.vertex_buffer
    }

    /// The buffer storing this mesh's indices.
    pub fn index_buffer(&self) -> (id: BufferId)
        ensures
            id == self@.index_buffer,
    {
        self.index_buffer
    }

    /// The number of indices in the index buffer. No submesh reaches beyond
    /// it.
    pub fn index_count(&self) -> (n: u32)
        ensures
            n == self@.index_count,
            self@.within_bounds(),
    {
        proof {
            use_type_invariant(self);
        }
        self.index_count
    }

    /// Size of the index buffer elements.
    pub fn index_format(&self) -> (f: IndexFormat)
        ensures
            f == self@.index_format,
    {
        self.index_format
    }

    /// Submeshes that draw a portion of the total mesh.
    pub fn submeshes(&self) -> (s: &Vec<Submesh>)
        ensures
            s@ == self@.submeshes,
    {
        &self.submeshes
    }
}

/// A model is an instance of a mesh with its own state. Models can be drawn
/// by the renderer.
pub struct Model {
    /// The world position of this model.
    translation: Vec3,
    /// The rotation of this model.
    rotation: Quat,
    /// The scale of this model.
    scale: Vec3,
    /// Names the shader uniform values associated with this model. The
    /// uniforms must be uploaded to the GPU after changes to position,
    /// rotation etc. This update must happen prior to drawing.
    model_sv_key: ModelShaderValsKey,
    /// Specifies if the translation, rotation or scale of the model has
    /// changed since the last time those values were copied to the shader
    /// values backing this model.
    model_sv_dirty: bool,
    /// Reference to the shared mesh that this model will draw.
    mesh: Rc<Mesh>,
}

/// A model as contracts see it.
pub struct ModelView {
    pub translation: Vec3,
    pub rotation: Quat,
    pub scale: Vec3,
    pub model_sv_key: ModelShaderValsKey,
    pub dirty: bool,
    pub mesh: MeshView,
}

impl ModelView {
    /// The model with its dirty flag set.
    pub open spec fn touched(self) -> ModelView {
        ModelView { dirty: true, ..self }
    }

    /// The model after the renderer has handed its shader values out for
    /// upload.
    pub open spec fn updated(self) -> ModelView {
        ModelView { dirty: false, ..self }
    }

    /// A model is dirty from its making and from every change of its
    /// translation, rotation or scale until the renderer has handed its
    /// shader values out for upload; then it is clean until the next
    /// change.
    pub proof fn lemma_dirty_lifecycle(self, translation: Vec3, rotation: Quat, scale: Vec3)
        ensures
            !self.updated().dirty,
            (ModelView { translation, ..self.updated() }).touched().dirty,
            (ModelView { rotation, ..self.updated() }).touched().dirty,
            (ModelView { scale, ..self.updated() }).touched().dirty,
            (ModelView { translation, rotation, scale, ..self.updated() }).touched().dirty,
            self.touched().updated() == self.updated(),
    {
    }

    /// The commands that draw the model: bind its uniforms in slot `PER_MODEL_GROUP`,
    /// then draw its mesh.
    pub open spec fn commands(self) -> Seq<DrawCommand> {
        seq![
            DrawCommand::SetBindGroup {
                index: PER_MODEL_GROUP,
                bind_group: BindGroupRef::PerModel { key: self.model_sv_key },
            },
        ] + self.mesh.commands()
    }
}

impl View for Model {
    type V = ModelView;

    closed spec fn view(&self) -> ModelView {
        ModelView {
            translation: self.translation,
            rotation: self.rotation,
            scale: self.scale,
            model_sv_key: self.model_sv_key,
            dirty: self.model_sv_dirty,
            mesh: (*self.mesh)@,
        }
    }
}

impl Model {
    /// Create a new model. It starts dirty, which forces an upload of its
    /// uniforms before it is first drawn.
    pub fn new(
        model_shader_vals: ModelShaderValsKey,
        mesh: Rc<Mesh>,
        translation: Vec3,
        rotation: Quat,
        scale: Vec3,
    ) -> (model: Self)
        ensures
            model@ == (ModelView {
                translation,
                rotation,
                scale,
                model_sv_key: model_shader_vals,
                dirty: true,
                mesh: (*mesh)@,
            }),
            model@.dirty,
    {
        Model {
            translation,
            rotation,
            scale,
            model_sv_key: model_shader_vals,
            model_sv_dirty: true,
            mesh,
        }
    }

    /// Model translation offset.
    pub fn translation(&self) -> (v: Vec3)
        ensures
            v == self@.translation,
    {
        self.translation
    }

    /// Model rotation.
    pub fn rotation(&self) -> (q: Quat)
        ensures
            q == self@.rotation,
    {
        self.rotation
    }

    /// Model scale.
    pub fn scale(&self) -> (v: Vec3)
        ensures
            v == self@.scale,
    {
        self.scale
    }

    /// The key of the shader values associated with this model.
    pub fn model_sv_key(&self) -> (key: ModelShaderValsKey)
        ensures
            key == self@.model_sv_key,
    {
        self.model_sv_key
    }

    /// The shared mesh that this model draws.
    pub fn mesh(&self) -> (mesh: &Mesh)
        ensures
            mesh@ == self@.mesh,
    {
        &self.mesh
    }

    /// Returns true if the values stored in this model (eg translation,
    /// rotation or scale) are out of date with respect to the values stored
    /// in the model's shader values.
    pub fn is_model_sv_dirty(&self) -> (d: bool)
        ensures
            d == self@.dirty,
    {
        self.model_sv_dirty
    }

    /// Set position, rotation and scale of this model.
    pub fn set_scale_rotation_translation(&mut self, scale: Vec3, rotation: Quat, translation: Vec3)
        ensures
            final(self)@ == (ModelView { scale, rotation, translation, ..old(self)@ }).touched(),
    {
        self.scale = scale;
        self.rotation = rotation;
        self.translation = translation;
        self.model_sv_dirty = true;
    }

    /// Set the position of this model.
    pub fn set_translation(&mut self, translation: Vec3)
        ensures
            final(self)@ == (ModelView { translation, ..old(self)@ }).touched(),
    {
        self.translation = translation;
        self.model_sv_dirty = true;
    }

    /// Set the rotation of the model.
    pub fn set_rotation(&mut self, rotation: Quat)
        ensures
            final(self)@ == (ModelView { rotation, ..old(self)@ }).touched(),
    {
        self.rotation = rotation;
        self.model_sv_dirty = true;
    }

    /// Set the scale of the model.
    pub fn set_scale(&mut self, scale: Vec3)
        ensures
            final(self)@ == (ModelView { scale, ..old(self)@ }).touched(),
    {
        self.scale = scale;
        self.model_sv_dirty = true;
    }

    /// Unsets the dirty flag.
    ///
    /// This should only be called by the renderer after it has handed the
    /// model's shader values out for upload.
    pub fn mark_model_sv_updated(&mut self)
        ensures
            final(self)@ == old(self)@.updated(),
    {
        self.model_sv_dirty = false;
    }
}

/// `Rc::clone`: another handle to the same mesh.
#[verifier::external_body]
pub(crate) fn share_mesh(mesh: &Rc<Mesh>) -> (shared: Rc<Mesh>)
    ensures
        *shared == **mesh,
{
    Rc::clone(mesh)
}

/// A trait for types that are capable of rendering models and meshes.
pub trait DrawModel {
    /// The commands recorded so far.
    spec fn recorded(&self) -> Seq<DrawCommand>;

    /// Records the commands that draw `model`. Neither the model nor its
    /// shader values may be dirty: what is drawn is what the GPU holds.
    fn draw_model(&mut self, model: &Model, model_sv: &PerModelShaderVals)
        requires
            !model@.dirty,
            !model_sv.dirty(),
        ensures
            final(self).recorded() == old(self).recorded() + model@.commands(),
            model@.mesh.within_bounds(),
    ;

    /// Records the commands that draw `mesh`.
    fn draw_mesh(&mut self, mesh: &Mesh)
        ensures
            final(self).recorded() == old(self).recorded() + mesh@.commands(),
            mesh@.within_bounds(),
    ;
}

impl DrawModel for RenderPass {
    open spec fn recorded(&self) -> Seq<DrawCommand> {
        self.commands@
    }

    fn draw_model(&mut self, model: &Model, model_sv: &PerModelShaderVals)
        ensures
            final(self).kind == old(self).kind,
            final(self).color_load == old(self).color_load,
            final(self).depth_load == old(self).depth_load,
    {
        // Bind the per-model uniforms for this model before drawing the mesh.
        self.commands.push(
            DrawCommand::SetBindGroup {
                index: PER_MODEL_GROUP,
                bind_group: BindGroupRef::PerModel { key: model.model_sv_key },
            },
        );
        self.draw_mesh(&model.mesh);
        assert(final(self).commands@ =~= old(self).commands@ + model@.commands());
    }

    fn draw_mesh(&mut self, mesh: &Mesh)
        ensures
            final(self).kind == old(self).kind,
            final(self).color_load == old(self).color_load,
            final(self).depth_load == old(self).depth_load,
    {
        proof {
            use_type_invariant(mesh);
        }
        // Bind the mesh's vertex and index buffers.
        self.commands.push(
            DrawCommand::SetVertexBuffer {
                slot: 0,
                buffer: BufferRef::Mesh { buffer: mesh.vertex_buffer },
            },
        );
        self.commands.push(
            DrawCommand::SetIndexBuffer {
                buffer: BufferRef::Mesh { buffer: mesh.index_buffer },
                index_format: mesh.index_format,
            },
        );
        let ghost bound = self.commands@;
        // Draw each sub-mesh in the mesh.
        let mut i: usize = 0;
        while i < mesh.submeshes.len()
            invariant
                0 <= i <= mesh.submeshes.len(),
                self.commands@ == bound + mesh@.submesh_commands(i as int),
                self.kind == old(self).kind,
                self.color_load == old(self).color_load,
                self.depth_load == old(self).depth_load,
            decreases mesh.submeshes.len() - i,
        {
            let submesh = &mesh.submeshes[i];
            self.commands.push(
                DrawCommand::SetBindGroup {
                    index: PER_SUBMESH_GROUP,
                    bind_group: BindGroupRef::PerSubmesh {
                        bind_group: submesh.submesh_shader_vals.bind_group(),
                    },
                },
            );
            self.commands.push(
                DrawCommand::DrawIndexed {
                    indices: IndexRange { start: submesh.indices.start, end: submesh.indices.end },
                    base_vertex: submesh.base_vertex,
                    instances: IndexRange { start: 0, end: 1 },
                },
            );
            assert(self.commands@ =~= bound + mesh@.submesh_commands(i as int)
                + mesh@.submeshes[i as int].commands());
            assert(self.commands@ =~= bound + mesh@.submesh_commands(i + 1));
            i += 1;
        }
        assert(final(self).commands@ =~= old(self).commands@ + mesh@.commands());
    }
}

} // verus!
