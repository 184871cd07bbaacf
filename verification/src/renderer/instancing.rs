//! Model instances that are drawn with one call.
use vstd::prelude::*;
use crate::math::Mat4;
use crate::math::Quat;
use crate::math::Vec3;
use crate::renderer::gpu_buffers::InstanceBuffer;
use crate::renderer::layout::VertexAttribute;
use crate::renderer::layout::VertexBufferLayout;
use crate::renderer::layout::VertexFormat;
use crate::renderer::layout::VertexStepMode;

verus! {

/// Stores data unique to each model instance including local->world
/// translation and rotation values.
#[derive(Clone, Copy, Debug, PartialEq, Eq, Structural)]
pub struct ModelInstance {
    /// Model space to world space translation vector.
    pub position: Vec3,
    /// Model space rotation amount.
    pub rotation: Quat,
}

/// The transform of one instance as the GPU reads it.
#[derive(Clone, Copy, Debug, PartialEq, Eq, Structural)]
pub struct ModelInstanceRawData {
    pub model: Mat4,
}

/// Represents a GPU instance buffer holding an arbitrary number of
/// `ModelInstance` values.
///
/// The buffer holds each instance as a 4x4 matrix transform, which the
/// host computes from the instance's rotation and position.
pub struct ModelInstanceBuffer {
    /// A friendly representation of the per-model instance data.
    instances: Vec<ModelInstance>,
    /// The transformation of each per-model instance into a 4x4 transform
    /// matrix.
    cpu_buffer: InstanceBuffer<ModelInstanceRawData>,
}

impl ModelInstanceBuffer {
    /// The instances, in order.
    pub closed spec fn view(&self) -> Seq<ModelInstance> {
        self.instances@
    }

    /// The transforms on the CPU, in order.
    pub closed spec fn transforms(&self) -> Seq<ModelInstanceRawData> {
        self.cpu_buffer@
    }

    /// The transforms that the GPU buffer holds.
    pub closed spec fn gpu_transforms(&self) -> Seq<ModelInstanceRawData> {
        self.cpu_buffer.gpu_instances()
    }

    /// There is a transform for each instance.
    pub closed spec fn wf(&self) -> bool {
        self.cpu_buffer@.len() == self.instances@.len()
    }

    /// The transforms with the matrices `matrices`.
    pub open spec fn raw(matrices: Seq<Mat4>) -> Seq<ModelInstanceRawData> {
        Seq::new(matrices.len(), |i: int| ModelInstanceRawData { model: matrices[i] })
    }

    fn raw_data(matrices: &Vec<Mat4>) -> (data: Vec<ModelInstanceRawData>)
        ensures
            data@ == Self::raw(matrices@),
    {
        let mut data: Vec<ModelInstanceRawData> = Vec::new();
        let mut i: usize = 0;
        while i < matrices.len()
            invariant
                0 <= i <= matrices@.len(),
                data@ == Self::raw(matrices@.take(i as int)),
            decreases matrices@.len() - i,
        {
            data.push(ModelInstanceRawData { model: matrices[i] });
            assert(data@ =~= Self::raw(matrices@.take(i + 1)));
            i += 1;
        }
        assert(matrices@.take(i as int) =~= matrices@);
        data
    }

    /// Create a new `ModelInstanceBuffer` from the vector of model
    /// instances. `matrices` holds the transform of each instance.
    pub fn new(instances: Vec<ModelInstance>, matrices: &Vec<Mat4>) -> (buffer: Self)
        requires
            matrices@.len() == instances@.len(),
        ensures
            buffer.wf(),
            buffer@ == instances@,
            buffer.transforms() == Self::raw(matrices@),
            buffer.gpu_transforms() == buffer.transforms(),
    {
        ModelInstanceBuffer { instances, cpu_buffer: InstanceBuffer::new(Self::raw_data(matrices)) }
    }

    /// Get a reference to the vector of instances stored in this model
    /// instance buffer.
    pub fn instances(&self) -> (all: &Vec<ModelInstance>)
        ensures
            all@ == self@,
    {
        &self.instances
    }

    /// The transforms, in the order in which the GPU buffer stores them.
    pub fn cpu_buffer(&self) -> (all: &Vec<ModelInstanceRawData>)
        ensures
            all@ == self.transforms(),
    {
        self.cpu_buffer.instances()
    }

    /// Replace the instance with the number `index`. The transforms are
    /// brought up to date by the next `write_to_gpu`.
    pub fn set_instance(&mut self, index: usize, instance: ModelInstance)
        requires
            old(self).wf(),
            index < old(self)@.len(),
        ensures
            final(self).wf(),
            final(self)@ == old(self)@.update(index as int, instance),
            final(self).transforms() == old(self).transforms(),
            final(self).gpu_transforms() == old(self).gpu_transforms(),
    {
        self.instances[index] = instance;
    }

    /// Takes the transform of each instance and hands the transforms out
    /// for upload. `matrices` holds the transform of each instance.
    pub fn write_to_gpu(&mut self, matrices: &Vec<Mat4>)
        requires
            old(self).wf(),
            matrices@.len() == old(self)@.len(),
        ensures
            final(self).wf(),
            final(self)@ == old(self)@,
            final(self).transforms() == Self::raw(matrices@),
            final(self).gpu_transforms() == final(self).transforms(),
    {
        let mut i: usize = 0;
        while i < matrices.len()
            invariant
                0 <= i <= matrices@.len(),
                matrices@.len() == self.instances@.len(),
                self.instances@ == old(self).instances@,
                self.cpu_buffer@.len() == matrices@.len(),
                forall|k: int|
                    0 <= k < i ==> (#[trigger] self.cpu_buffer@[k]) == (ModelInstanceRawData {
                        model: matrices@[k],
                    }),
            decreases matrices@.len() - i,
        {
            let slot = self.cpu_buffer.values_mut(i);
            slot.model = matrices[i];
            i += 1;
        }
        self.cpu_buffer.update_gpu();
        assert(self.cpu_buffer@ =~= Self::raw(matrices@));
    }

    /// The attributes of a model instance: the four columns of its matrix
    /// at locations 3 to 6.
    pub open spec fn attributes() -> Seq<VertexAttribute> {
        seq![
            VertexAttribute { offset: 0, shader_location: 3, format: VertexFormat::Float32x4 },
            VertexAttribute { offset: 16, shader_location: 4, format: VertexFormat::Float32x4 },
            VertexAttribute { offset: 32, shader_location: 5, format: VertexFormat::Float32x4 },
            VertexAttribute { offset: 48, shader_location: 6, format: VertexFormat::Float32x4 },
        ]
    }

    /// Get a vertex buffer layout which is used when creating the vertex
    /// state of a render pipeline: records of 64 bytes, one for each
    /// instance. Its locations start behind those of a mesh vertex.
    pub fn layout_desc() -> (layout: VertexBufferLayout)
        ensures
            layout.array_stride == 64,
            layout.step_mode == VertexStepMode::Instance,
            layout.attributes@ == Self::attributes(),
            layout.is_tight(),
            layout.first_location() == crate::renderer::models::Vertex::attributes().last().shader_location
                + 1,
    {
        let mut attributes: Vec<VertexAttribute> = Vec::new();
        let mut i: u32 = 0;
        while i < 4
            invariant
                0 <= i <= 4,
                attributes@ == Self::attributes().take(i as int),
            decreases 4 - i,
        {
            attributes.push(
                VertexAttribute {
                    offset: 16 * (i as u64),
                    shader_location: 3 + i,
                    format: VertexFormat::Float32x4,
                },
            );
            assert(attributes@ =~= Self::attributes().take(i + 1));
            i += 1;
        }
        assert(Self::attributes().take(4) =~= Self::attributes());
        VertexBufferLayout { array_stride: 64, step_mode: VertexStepMode::Instance, attributes }
    }
}

/// The cells of a grid of `num_rows` rows of `instances_per_row` instances
/// each, row after row, each cell by its place in the row and the number
/// of its row. The instance of a cell stands two units from its
/// neighbours in either direction.
pub open spec fn grid_cells(num_rows: usize, instances_per_row: usize) -> Seq<(usize, usize)> {
    Seq::new(
        (num_rows * instances_per_row) as nat,
        |i: int| ((i % instances_per_row as int) as usize, (i / instances_per_row as int) as usize),
    )
}

/// The cells of an NxM grid of model instances, in the order in which
/// `ModelInstanceBuffer` holds the instances of a grid.
pub fn spawn_object_instances_as_grid(num_rows: usize, instances_per_row: usize) -> (cells: Vec<
    (usize, usize),
>)
    requires
        num_rows * instances_per_row <= usize::MAX,
    ensures
        cells@ == grid_cells(num_rows, instances_per_row),
{
    let mut cells: Vec<(usize, usize)> = Vec::new();
    let mut z: usize = 0;
    while z < num_rows
        invariant
            0 <= z <= num_rows,
            num_rows * instances_per_row <= usize::MAX,
            cells@.len() == z * instances_per_row,
            forall|i: int|
                0 <= i < cells@.len() ==> (#[trigger] cells@[i]) == grid_cells(
                    num_rows,
                    instances_per_row,
                )[i],
        decreases num_rows - z,
    {
        let mut x: usize = 0;
        while x < instances_per_row
            invariant
                0 <= x <= instances_per_row,
                0 <= z < num_rows,
                num_rows * instances_per_row <= usize::MAX,
                cells@.len() == z * instances_per_row + x,
                forall|i: int|
                    0 <= i < cells@.len() ==> (#[trigger] cells@[i]) == grid_cells(
                        num_rows,
                        instances_per_row,
                    )[i],
            decreases instances_per_row - x,
        {
            proof {
                let i = z * instances_per_row + x;
                assert(i / instances_per_row as int == z && i % instances_per_row as int == x)
                    by (nonlinear_arith)
                    requires
                        i == z * instances_per_row + x,
                        0 <= x < instances_per_row,
                        0 <= z,
                ;
                assert(z * instances_per_row + x < num_rows * instances_per_row)
                    by (nonlinear_arith)
                    requires
                        0 <= x < instances_per_row,
                        0 <= z < num_rows,
                ;
            }
            cells.push((x, z));
            x += 1;
        }
        assert((z + 1) * instances_per_row == z * instances_per_row + instances_per_row)
            by (nonlinear_arith);
        z += 1;
    }
    assert(cells@ =~= grid_cells(num_rows, instances_per_row));
    cells
}

} // verus!
