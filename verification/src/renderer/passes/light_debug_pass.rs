//! The pass that marks each point light with a small tinted cube.
//!
//! The markers are drawn instanced: one instance record per light per
//! frame. The list of lights does not outlive a frame: `prepare` makes it
//! anew and `finish_frame` empties it.
use vstd::prelude::*;
use crate::math::Mat4;
use crate::math::Scalar;
use crate::math::Vec3;
use crate::renderer::gpu_buffers::DynamicGpuBuffer;
use crate::renderer::gpu_buffers::InstanceBuffer;
use crate::renderer::lighting::PointLight;
use crate::renderer::passes::BindGroupRef;
use crate::renderer::passes::BufferRef;
use crate::renderer::passes::DrawCommand;
use crate::renderer::passes::IndexFormat;
use crate::renderer::passes::IndexRange;
use crate::renderer::passes::LoadOp;
use crate::renderer::passes::PassKind;
use crate::renderer::passes::RenderPass;
use crate::renderer::shaders::PER_FRAME_GROUP;

verus! {

/// The number of instance records in the marker buffer.
pub const LAMP_CAPACITY: usize = 100;

/// The number of indices that draw the marker cube.
pub const CUBE_INDEX_COUNT: u32 = 36;

/// One instance record of a marker, as the debug shader reads it.
#[derive(Clone, Copy, Debug, PartialEq, Eq, Structural)]
pub struct DebugMeshPackedInstance {
    pub local_to_world: Mat4,
    pub color_tint: Vec3,
    pub _padding_1: Scalar,
}

impl DebugMeshPackedInstance {
    /// The record that every slot of a new buffer holds: the identity
    /// transform and a white tint.
    pub open spec fn initial() -> DebugMeshPackedInstance {
        DebugMeshPackedInstance {
            local_to_world: Mat4::identity_spec(),
            color_tint: Vec3::splat_spec(0x3f80_0000),
            _padding_1: Scalar { bits: 0 },
        }
    }
}

/// The instance buffer of the markers.
pub struct DebugMeshInstanceBuffer {
    buffer: InstanceBuffer<DebugMeshPackedInstance>,
}

impl DebugMeshInstanceBuffer {
    /// The CPU-side records, in order.
    pub closed spec fn view(&self) -> Seq<DebugMeshPackedInstance> {
        self.buffer@
    }

    /// The records that the GPU buffer holds.
    pub closed spec fn gpu_instances(&self) -> Seq<DebugMeshPackedInstance> {
        self.buffer.gpu_instances()
    }

    /// The dirty flag.
    pub closed spec fn dirty(&self) -> bool {
        self.buffer.dirty()
    }

    /// A buffer of `LAMP_CAPACITY` records, each the initial record.
    pub fn new() -> (b: Self)
        ensures
            b@ == Seq::new(LAMP_CAPACITY as nat, |i: int| DebugMeshPackedInstance::initial()),
            b.gpu_instances() == b@,
            !b.dirty(),
    {
        let initial = DebugMeshPackedInstance {
            local_to_world: Mat4::identity(),
            color_tint: Vec3::splat(Scalar::one()),
            _padding_1: Scalar::zero(),
        };
        let mut instances: Vec<DebugMeshPackedInstance> = Vec::new();
        let mut i: usize = 0;
        while i < LAMP_CAPACITY
            invariant
                0 <= i <= LAMP_CAPACITY,
                initial == DebugMeshPackedInstance::initial(),
                instances@ == Seq::new(i as nat, |k: int| DebugMeshPackedInstance::initial()),
            decreases LAMP_CAPACITY - i,
        {
            instances.push(initial);
            assert(instances@ =~= Seq::new(
                (i + 1) as nat,
                |k: int| DebugMeshPackedInstance::initial(),
            ));
            i += 1;
        }
        DebugMeshInstanceBuffer { buffer: InstanceBuffer::new(instances) }
    }

    /// All records, in the order in which the GPU buffer stores them.
    pub fn instances(&self) -> (all: &Vec<DebugMeshPackedInstance>)
        ensures
            all@ == self@,
    {
        self.buffer.instances()
    }

    pub fn len(&self) -> (n: usize)
        ensures
            n == self@.len(),
    {
        self.buffer.len()
    }

    pub fn set_local_to_world(&mut self, index: usize, local_to_world: Mat4)
        requires
            index < old(self)@.len(),
        ensures
            final(self)@ == old(self)@.update(
                index as int,
                DebugMeshPackedInstance { local_to_world, ..old(self)@[index as int] },
            ),
            final(self).dirty(),
            final(self).gpu_instances() == old(self).gpu_instances(),
    {
        let instance = self.buffer.values_mut(index);
        instance.local_to_world = local_to_world;
    }

    pub fn set_color_tint(&mut self, index: usize, color: Vec3)
        requires
            index < old(self)@.len(),
        ensures
            final(self)@ == old(self)@.update(
                index as int,
                DebugMeshPackedInstance { color_tint: color, ..old(self)@[index as int] },
            ),
            final(self).dirty(),
            final(self).gpu_instances() == old(self).gpu_instances(),
    {
        let instance = self.buffer.values_mut(index);
        instance.color_tint = color;
    }

    /// Marks the records as handed out for upload and clears the dirty
    /// flag.
    pub fn update_gpu(&mut self)
        ensures
            final(self)@ == old(self)@,
            final(self).gpu_instances() == old(self)@,
            !final(self).dirty(),
    {
        self.buffer.update_gpu()
    }

    /// Check if the records are out of sync with the GPU.
    pub fn is_dirty(&self) -> (d: bool)
        ensures
            d == self.dirty(),
            !d ==> self.gpu_instances() == self@,
    {
        self.buffer.is_dirty()
    }
}

impl DynamicGpuBuffer for DebugMeshInstanceBuffer {
    open spec fn out_of_sync(&self) -> bool {
        self.dirty()
    }

    fn update_gpu(&mut self)
        ensures
            final(self)@ == old(self)@,
            final(self).gpu_instances() == old(self)@,
    {
        DebugMeshInstanceBuffer::update_gpu(self);
    }

    fn is_dirty(&self) -> (d: bool) {
        DebugMeshInstanceBuffer::is_dirty(self)
    }
}

/// The light-position debug overlay.
pub struct LightDebugPass {
    lamp_instances: DebugMeshInstanceBuffer,
    lamp_count: usize,
}

impl LightDebugPass {
    /// The number of markers that the pass will draw.
    pub closed spec fn lamps(&self) -> nat {
        self.lamp_count as nat
    }

    /// The instance records, in order.
    pub closed spec fn instances(&self) -> Seq<DebugMeshPackedInstance> {
        self.lamp_instances@
    }

    /// The records that the GPU buffer holds.
    pub closed spec fn gpu_instances(&self) -> Seq<DebugMeshPackedInstance> {
        self.lamp_instances.gpu_instances()
    }

    /// Whether the records are out of sync with the GPU.
    pub closed spec fn dirty(&self) -> bool {
        self.lamp_instances.dirty()
    }

    /// The buffer has `LAMP_CAPACITY` records and no more markers than
    /// records.
    pub closed spec fn wf(&self) -> bool {
        self.lamp_count <= LAMP_CAPACITY && self.lamp_instances@.len() == LAMP_CAPACITY
    }

    /// The record of the marker of `light`, placed by `local_to_world`, in
    /// a slot that held `before`.
    pub open spec fn marker(
        before: DebugMeshPackedInstance,
        light: PointLight,
        local_to_world: Mat4,
    ) -> DebugMeshPackedInstance {
        DebugMeshPackedInstance { local_to_world, color_tint: light.color, ..before }
    }

    /// The commands of the pass when it draws `lamps` markers: bind the
    /// per-frame uniforms, the cube and the instance records, then draw the
    /// cube once per marker.
    pub open spec fn commands(lamps: nat) -> Seq<DrawCommand> {
        seq![
            DrawCommand::SetBindGroup { index: PER_FRAME_GROUP, bind_group: BindGroupRef::PerFrame },
            DrawCommand::SetVertexBuffer { slot: 0, buffer: BufferRef::DebugCubeVertices },
            DrawCommand::SetVertexBuffer { slot: 1, buffer: BufferRef::LampInstances },
            DrawCommand::SetIndexBuffer {
                buffer: BufferRef::DebugCubeIndices,
                index_format: IndexFormat::Uint16,
            },
            DrawCommand::DrawIndexed {
                indices: IndexRange { start: 0, end: CUBE_INDEX_COUNT },
                base_vertex: 0,
                instances: IndexRange { start: 0, end: lamps as u32 },
            },
        ]
    }

    /// A pass with no marker.
    pub fn new() -> (pass: Self)
        ensures
            pass.wf(),
            pass.lamps() == 0,
            pass.instances() == Seq::new(
                LAMP_CAPACITY as nat,
                |i: int| DebugMeshPackedInstance::initial(),
            ),
            pass.gpu_instances() == pass.instances(),
            !pass.dirty(),
    {
        LightDebugPass { lamp_instances: DebugMeshInstanceBuffer::new(), lamp_count: 0 }
    }

    /// The number of markers that the pass will draw.
    pub fn lamp_count(&self) -> (n: usize)
        ensures
            n == self.lamps(),
    {
        self.lamp_count
    }

    /// A well-formed pass has `LAMP_CAPACITY` records and no more markers
    /// than records.
    pub proof fn lemma_wf(&self)
        requires
            self.wf(),
        ensures
            self.lamps() <= LAMP_CAPACITY,
            self.instances().len() == LAMP_CAPACITY,
    {
    }

    /// Check if the instance records are out of sync with the GPU.
    pub fn is_dirty(&self) -> (d: bool)
        ensures
            d == self.dirty(),
            !d ==> self.gpu_instances() == self.instances(),
    {
        self.lamp_instances.is_dirty()
    }

    /// The instance records, in the order in which the GPU buffer stores
    /// them.
    pub fn lamp_instances(&self) -> (all: &Vec<DebugMeshPackedInstance>)
        ensures
            all@ == self.instances(),
    {
        self.lamp_instances.instances()
    }

    /// Adds a marker for `light`. `local_to_world` places the marker at the
    /// light's position, scaled down to a fifth.
    pub fn add_point_light(&mut self, light: &PointLight, local_to_world: Mat4)
        requires
            old(self).wf(),
            old(self).lamps() < LAMP_CAPACITY,
        ensures
            final(self).wf(),
            final(self).lamps() == old(self).lamps() + 1,
            final(self).instances() == old(self).instances().update(
                old(self).lamps() as int,
                Self::marker(old(self).instances()[old(self).lamps() as int], *light, local_to_world),
            ),
            final(self).dirty(),
            final(self).gpu_instances() == old(self).gpu_instances(),
    {
        self.lamp_instances.set_color_tint(self.lamp_count, light.color);
        self.lamp_instances.set_local_to_world(self.lamp_count, local_to_world);
        self.lamp_count += 1;
        assert(final(self).instances() =~= old(self).instances().update(
            old(self).lamps() as int,
            Self::marker(old(self).instances()[old(self).lamps() as int], *light, local_to_world),
        ));
    }

    /// The records `before` with the markers of `lights` in the records
    /// from the number `first` on; every other record is as it was.
    pub open spec fn with_markers(
        before: Seq<DebugMeshPackedInstance>,
        first: int,
        lights: Seq<PointLight>,
        lamp_matrices: Seq<Mat4>,
    ) -> Seq<DebugMeshPackedInstance> {
        Seq::new(
            before.len(),
            |i: int|
                if first <= i < first + lights.len() {
                    Self::marker(before[i], lights[i - first], lamp_matrices[i - first])
                } else {
                    before[i]
                },
        )
    }

    /// Where the records hold the markers of `lights` from the first record
    /// on, the record with the number `i` holds the marker of the light
    /// with the number `i`, and the records behind the markers are as they
    /// were.
    pub proof fn lemma_markers(
        before: Seq<DebugMeshPackedInstance>,
        lights: Seq<PointLight>,
        lamp_matrices: Seq<Mat4>,
    )
        requires
            lights.len() <= before.len(),
        ensures
            Self::with_markers(before, 0, lights, lamp_matrices).len() == before.len(),
            forall|i: int|
                0 <= i < lights.len() ==> (#[trigger] Self::with_markers(
                    before,
                    0,
                    lights,
                    lamp_matrices,
                )[i]) == Self::marker(before[i], lights[i], lamp_matrices[i]),
            forall|i: int|
                lights.len() <= i < before.len() ==> (#[trigger] Self::with_markers(
                    before,
                    0,
                    lights,
                    lamp_matrices,
                )[i]) == before[i],
    {
    }

    /// Makes the markers of one frame: forgets the markers that are there,
    /// adds a marker for each of `point_lights`, in order, from the first
    /// record on, and hands the records out for upload if any of them is
    /// new. Returns whether the caller has to write the records to the
    /// GPU.
    pub fn prepare(
        &mut self,
        point_lights: &Vec<PointLight>,
        lamp_matrices: &Vec<Mat4>,
    ) -> (upload: bool)
        requires
            old(self).wf(),
            lamp_matrices@.len() == point_lights@.len(),
            point_lights@.len() <= LAMP_CAPACITY,
        ensures
            final(self).wf(),
            final(self).lamps() == point_lights@.len(),
            final(self).instances() == Self::with_markers(
                old(self).instances(),
                0,
                point_lights@,
                lamp_matrices@,
            ),
            !final(self).dirty(),
            final(self).gpu_instances() == if upload {
                final(self).instances()
            } else {
                old(self).gpu_instances()
            },
            upload == (old(self).dirty() || point_lights@.len() > 0),
    {
        // The markers of a frame that was not drawn are not kept.
        self.lamp_count = 0;
        assert(self.instances() =~= Self::with_markers(
            old(self).instances(),
            0,
            point_lights@.take(0),
            lamp_matrices@.take(0),
        ));
        let mut i: usize = 0;
        while i < point_lights.len()
            invariant
                self.wf(),
                old(self).wf(),
                0 <= i <= point_lights@.len(),
                lamp_matrices@.len() == point_lights@.len(),
                point_lights@.len() <= LAMP_CAPACITY,
                self.lamps() == i,
                self.instances() == Self::with_markers(
                    old(self).instances(),
                    0,
                    point_lights@.take(i as int),
                    lamp_matrices@.take(i as int),
                ),
                self.dirty() == (old(self).dirty() || i > 0),
                self.gpu_instances() == old(self).gpu_instances(),
            decreases point_lights@.len() - i,
        {
            self.add_point_light(&point_lights[i], lamp_matrices[i]);
            assert(self.instances() =~= Self::with_markers(
                old(self).instances(),
                0,
                point_lights@.take(i + 1),
                lamp_matrices@.take(i + 1),
            ));
            i += 1;
        }
        assert(point_lights@.take(i as int) =~= point_lights@);
        assert(lamp_matrices@.take(i as int) =~= lamp_matrices@);
        if self.lamp_instances.is_dirty() {
            self.lamp_instances.update_gpu();
            true
        } else {
            false
        }
    }

    /// The pass: it draws over what the main pass left in the colour and
    /// the depth attachment.
    pub fn draw(&self) -> (pass: RenderPass)
        requires
            self.wf(),
        ensures
            pass.kind == PassKind::LightDebug,
            pass.color_load == LoadOp::Load,
            pass.depth_load == Some(LoadOp::Load),
            pass.commands@ == Self::commands(self.lamps()),
    {
        let mut commands: Vec<DrawCommand> = Vec::new();
        commands.push(
            DrawCommand::SetBindGroup { index: PER_FRAME_GROUP, bind_group: BindGroupRef::PerFrame },
        );
        commands.push(
            DrawCommand::SetVertexBuffer { slot: 0, buffer: BufferRef::DebugCubeVertices },
        );
        commands.push(DrawCommand::SetVertexBuffer { slot: 1, buffer: BufferRef::LampInstances });
        commands.push(
            DrawCommand::SetIndexBuffer {
                buffer: BufferRef::DebugCubeIndices,
                index_format: IndexFormat::Uint16,
            },
        );
        commands.push(
            DrawCommand::DrawIndexed {
                indices: IndexRange { start: 0, end: CUBE_INDEX_COUNT },
                base_vertex: 0,
                instances: IndexRange { start: 0, end: self.lamp_count as u32 },
            },
        );
        assert(commands@ =~= Self::commands(self.lamps()));
        RenderPass {
            kind: PassKind::LightDebug,
            color_load: LoadOp::Load,
            depth_load: Some(LoadOp::Load),
            commands,
        }
    }

    /// Forgets the markers of the frame that was drawn.
    pub fn finish_frame(&mut self)
        requires
            old(self).wf(),
        ensures
            final(self).wf(),
            final(self).lamps() == 0,
            final(self).instances() == old(self).instances(),
            final(self).gpu_instances() == old(self).gpu_instances(),
            final(self).dirty() == old(self).dirty(),
    {
        self.lamp_count = 0
    }
}

} // verus!
