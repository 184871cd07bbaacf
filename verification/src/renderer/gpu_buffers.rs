//! CPU-side mirrors of GPU buffers, with dirty tracking.
//!
//! A mirror owns the values that a shader will read and remembers whether
//! they may differ from what the GPU buffer holds. The GPU copy is modelled
//! as ghost state: it changes only when the mirror hands its values out for
//! upload.
use vstd::prelude::*;

verus! {

/// The name under which the host keeps a GPU buffer.
#[derive(Clone, Copy, Debug, PartialEq, Eq, Structural)]
pub struct BufferId {
    pub id: u64,
}

/// The name under which the host keeps a bind group.
#[derive(Clone, Copy, Debug, PartialEq, Eq, Structural)]
pub struct BindGroupId {
    pub id: u64,
}

/// What a mirror of a value of type `T` stands for: the value on the CPU,
/// the value on the GPU, and the flag that says whether the two may differ.
pub struct MirrorState<T> {
    pub values: T,
    pub gpu_values: T,
    pub dirty: bool,
}

impl<T> MirrorState<T> {
    /// The state after the values were handed out for writing and
    /// `values` was left in them.
    pub open spec fn touched(self, values: T) -> MirrorState<T> {
        MirrorState { values, gpu_values: self.gpu_values, dirty: true }
    }

    /// The state after the values were handed out for upload.
    pub open spec fn uploaded(self) -> MirrorState<T> {
        MirrorState { values: self.values, gpu_values: self.values, dirty: false }
    }

    /// A mirror that is not dirty holds on the GPU what it holds on the
    /// CPU.
    pub open spec fn in_step(self) -> bool {
        !self.dirty ==> self.gpu_values == self.values
    }

    /// The dirty flag goes round: handing the values out for writing sets
    /// it, whatever is written, and the next upload clears it and brings
    /// the GPU up to what was written. Uploading twice is the same as
    /// uploading once.
    pub proof fn lemma_dirty_round_trip(self, values: T)
        ensures
            self.touched(values).dirty,
            self.touched(self.values).dirty,
            !self.touched(values).uploaded().dirty,
            self.touched(values).uploaded().gpu_values == values,
            self.uploaded().uploaded() == self.uploaded(),
            self.in_step() ==> self.touched(values).in_step(),
            self.uploaded().in_step(),
    {
    }
}

/// One uniform value of type `T`, mirrored on the CPU.
pub struct GenericUniformBuffer<T: Copy> {
    /// The values stored in this uniform buffer.
    values: T,
    /// True if `values` may be out of sync with the GPU buffer.
    is_dirty: bool,
    /// What the GPU buffer held when the values were last handed out for
    /// writing; it is the GPU's content for as long as the mirror is dirty.
    stale: Ghost<T>,
}

impl<T: Copy> GenericUniformBuffer<T> {
    /// The CPU-side values.
    pub closed spec fn values_spec(&self) -> T {
        self.values
    }

    /// The dirty flag.
    pub closed spec fn dirty(&self) -> bool {
        self.is_dirty
    }

    /// The values that the GPU buffer holds.
    pub closed spec fn gpu_values(&self) -> T {
        if self.is_dirty {
            self.stale@
        } else {
            self.values
        }
    }

    /// What the mirror stands for.
    pub open spec fn state(&self) -> MirrorState<T> {
        MirrorState {
            values: self.values_spec(),
            gpu_values: self.gpu_values(),
            dirty: self.dirty(),
        }
    }

    /// A mirror for a GPU buffer that was created holding `values`.
    pub fn new(values: T) -> (buffer: Self)
        ensures
            buffer.values_spec() == values,
            buffer.gpu_values() == values,
            !buffer.dirty(),
            buffer.state().in_step(),
    {
        GenericUniformBuffer { values, is_dirty: false, stale: Ghost(values) }
    }

    /// Access the values stored in this uniform buffer.
    pub fn values(&self) -> (v: &T)
        ensures
            *v == self.values_spec(),
    {
        &self.values
    }

    /// Access the values stored in this uniform buffer with a mutable ref.
    ///
    /// Calling this method sets the dirty flag even if no value is changed.
    pub fn values_mut(&mut self) -> (v: &mut T)
        ensures
            *v == old(self).values_spec(),
            final(self).values_spec() == *final(v),
            final(self).dirty(),
            final(self).gpu_values() == old(self).gpu_values(),
            final(self).state() == old(self).state().touched(*final(v)),
    {
        self.stale = Ghost(self.gpu_values());
        self.is_dirty = true;
        &mut self.values
    }

    /// Hands out the values for upload and clears the dirty flag. The caller
    /// writes the returned values to the GPU buffer at offset zero.
    pub fn update_gpu(&mut self) -> (staged: T)
        ensures
            staged == old(self).values_spec(),
            final(self).values_spec() == old(self).values_spec(),
            final(self).gpu_values() == old(self).values_spec(),
            !final(self).dirty(),
            final(self).state() == old(self).state().uploaded(),
    {
        self.is_dirty = false;
        self.values
    }

    /// Check if the values are out of sync with the GPU. A buffer that is
    /// not dirty holds on the GPU exactly what it holds on the CPU.
    pub fn is_dirty(&self) -> (d: bool)
        ensures
            d == self.dirty(),
            !d ==> self.gpu_values() == self.values_spec(),
    {
        self.is_dirty
    }
}

/// An array of per-instance records, mirrored on the CPU.
pub struct InstanceBuffer<T: Copy> {
    /// A copy of all the instances in the buffer.
    instances: Vec<T>,
    /// True if `instances` has data that was not yet handed out for upload.
    is_dirty: bool,
    /// What the GPU buffer held when an instance was last handed out for
    /// writing; it is the GPU's content for as long as the mirror is dirty.
    stale: Ghost<Seq<T>>,
}

impl<T: Copy> InstanceBuffer<T> {
    /// The CPU-side instances, in order.
    pub closed spec fn view(&self) -> Seq<T> {
        self.instances@
    }

    /// The dirty flag.
    pub closed spec fn dirty(&self) -> bool {
        self.is_dirty
    }

    /// The instances that the GPU buffer holds.
    pub closed spec fn gpu_instances(&self) -> Seq<T> {
        if self.is_dirty {
            self.stale@
        } else {
            self.instances@
        }
    }

    /// What the mirror stands for.
    pub open spec fn state(&self) -> MirrorState<Seq<T>> {
        MirrorState { values: self@, gpu_values: self.gpu_instances(), dirty: self.dirty() }
    }

    /// A mirror for a GPU buffer that was created holding `instances`.
    pub fn new(instances: Vec<T>) -> (buffer: Self)
        ensures
            buffer@ == instances@,
            buffer.gpu_instances() == instances@,
            !buffer.dirty(),
            buffer.state().in_step(),
    {
        let ghost held = instances@;
        InstanceBuffer { instances, is_dirty: false, stale: Ghost(held) }
    }

    /// The number of instances.
    pub fn len(&self) -> (n: usize)
        ensures
            n == self@.len(),
    {
        self.instances.len()
    }

    /// All instances, in the order in which the GPU buffer stores them.
    pub fn instances(&self) -> (all: &Vec<T>)
        ensures
            all@ == self@,
    {
        &self.instances
    }

    /// Access an instance stored in this instance buffer.
    pub fn values(&self, index: usize) -> (v: &T)
        requires
            index < self@.len(),
        ensures
            *v == self@[index as int],
    {
        &self.instances[index]
    }

    /// Access an instance stored in this instance buffer via mutable ref.
    ///
    /// Calling this method sets the dirty flag even if no value is changed.
    pub fn values_mut(&mut self, index: usize) -> (v: &mut T)
        requires
            index < old(self)@.len(),
        ensures
            *v == old(self)@[index as int],
            final(self)@ == old(self)@.update(index as int, *final(v)),
            final(self).dirty(),
            final(self).gpu_instances() == old(self).gpu_instances(),
            final(self).state() == old(self).state().touched(
                old(self)@.update(index as int, *final(v)),
            ),
    {
        self.stale = Ghost(self.gpu_instances());
        self.is_dirty = true;
        &mut self.instances[index]
    }

    /// Marks every instance as handed out for upload and clears the dirty
    /// flag. The caller writes `instances()` to the GPU buffer at offset zero.
    pub fn update_gpu(&mut self)
        ensures
            final(self)@ == old(self)@,
            final(self).gpu_instances() == old(self)@,
            !final(self).dirty(),
            final(self).state() == old(self).state().uploaded(),
    {
        self.is_dirty = false;
    }

    /// Check if this buffer has values that were not yet handed out for
    /// upload. A buffer that is not dirty holds on the GPU exactly what it
    /// holds on the CPU.
    pub fn is_dirty(&self) -> (d: bool)
        ensures
            d == self.dirty(),
            !d ==> self.gpu_instances() == self@,
    {
        self.is_dirty
    }
}

/// Trait for objects that represent a GPU buffer that can be updated from
/// the CPU.
pub trait DynamicGpuBuffer {
    /// Whether the buffer has values that were not yet handed out for
    /// upload.
    spec fn out_of_sync(&self) -> bool;

    /// Hands the data stored in this buffer out for upload. This clears
    /// the dirty flag on this buffer.
    fn update_gpu(&mut self)
        ensures
            !final(self).out_of_sync(),
    ;

    /// Check if this buffer has values that were not yet handed out for
    /// upload.
    fn is_dirty(&self) -> (d: bool)
        ensures
            d == self.out_of_sync(),
    ;
}

impl<T: Copy> DynamicGpuBuffer for GenericUniformBuffer<T> {
    open spec fn out_of_sync(&self) -> bool {
        self.dirty()
    }

    fn update_gpu(&mut self)
        ensures
            final(self).state() == old(self).state().uploaded(),
    {
        let _ = GenericUniformBuffer::update_gpu(self);
    }

    fn is_dirty(&self) -> (d: bool) {
        GenericUniformBuffer::is_dirty(self)
    }
}

impl<T: Copy> DynamicGpuBuffer for InstanceBuffer<T> {
    open spec fn out_of_sync(&self) -> bool {
        self.dirty()
    }

    fn update_gpu(&mut self)
        ensures
            final(self).state() == old(self).state().uploaded(),
    {
        InstanceBuffer::update_gpu(self);
    }

    fn is_dirty(&self) -> (d: bool) {
        InstanceBuffer::is_dirty(self)
    }
}

} // verus!
