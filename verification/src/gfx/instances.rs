//! Double buffered containers of model instances: one buffer is filled while the other is
//! drawn. Each side has a GPU buffer, held here as an opaque handle.

use vstd::prelude::*;
use super::settings::DoubleBuffer;

verus! {

/// A bounded list of instances with its GPU buffer, and whether the buffer is stale.
pub struct InnerInstanceContainer<T, B> {
    max_instances: usize,
    instances: Vec<T>,
    instance_buffer: B,
    dirty: bool,
}

impl<T, B> InnerInstanceContainer<T, B> {
    pub closed spec fn capacity(&self) -> nat {
        self.max_instances as nat
    }

    pub closed spec fn contents(&self) -> Seq<T> {
        self.instances@
    }

    pub closed spec fn spec_buffer(&self) -> B {
        self.instance_buffer
    }

    /// Whether the GPU buffer must be rewritten.
    pub closed spec fn is_dirty(&self) -> bool {
        self.dirty
    }

    /// Never more instances than the capacity.
    pub open spec fn wf(&self) -> bool {
        self.contents().len() <= self.capacity()
    }

    /// A container over `instances`, already written to `instance_buffer`: as many
    /// instances fit as it holds now.
    pub fn from_data(instances: Vec<T>, instance_buffer: B) -> (c: Self)
        ensures
            c.capacity() == instances@.len(),
            c.contents() == instances@,
            c.spec_buffer() == instance_buffer,
            !c.is_dirty(),
            c.wf(),
    {
        Self { max_instances: instances.len(), instances, instance_buffer, dirty: false }
    }

    /// An empty container with room for as many instances as `defaults` holds; the GPU
    /// buffer was sized by writing `defaults` to it, and is current.
    pub fn new(defaults: Vec<T>, instance_buffer: B) -> (c: Self)
        ensures
            c.capacity() == defaults@.len(),
            c.contents() == Seq::<T>::empty(),
            c.spec_buffer() == instance_buffer,
            !c.is_dirty(),
            c.wf(),
    {
        let mut ic = Self::from_data(defaults, instance_buffer);
        ic.clear();
        ic.update_buffer();
        ic
    }

    /// Adds an instance if there is room. Returns whether it was added.
    pub fn add_instance(&mut self, instance: T) -> (added: bool)
        ensures
            added == (old(self).contents().len() < old(self).capacity()),
            added ==> final(self).contents() == old(self).contents().push(instance)
                && final(self).is_dirty(),
            !added ==> final(self).contents() == old(self).contents() && final(self).is_dirty()
                == old(self).is_dirty(),
            final(self).capacity() == old(self).capacity(),
            final(self).spec_buffer() == old(self).spec_buffer(),
            old(self).wf() ==> final(self).wf(),
    {
        if self.instances.len() < self.max_instances {
            self.instances.push(instance);
            self.dirty = true;
            return true;
        }
        false
    }

    /// Drops every instance.
    pub fn clear(&mut self)
        ensures
            final(self).contents() == Seq::<T>::empty(),
            final(self).is_dirty(),
            final(self).capacity() == old(self).capacity(),
            final(self).spec_buffer() == old(self).spec_buffer(),
            final(self).wf(),
    {
        self.instances.clear();
        self.dirty = true;
    }

    /// Marks the GPU buffer as current. Returns whether the instances must be written to
    /// it first: when they changed and there are some.
    pub fn update_buffer(&mut self) -> (write: bool)
        ensures
            write == (old(self).is_dirty() && old(self).contents().len() > 0),
            !final(self).is_dirty(),
            final(self).contents() == old(self).contents(),
            final(self).capacity() == old(self).capacity(),
            final(self).spec_buffer() == old(self).spec_buffer(),
    {
        let write = self.dirty && self.instances.is_empty() == false;
        self.dirty = false;
        write
    }

    /// The GPU buffer.
    pub fn buffer(&self) -> (b: &B)
        ensures
            *b == self.spec_buffer(),
    {
        &self.instance_buffer
    }

    /// The instances.
    pub fn instances(&self) -> (instances: &Vec<T>)
        ensures
            instances@ == self.contents(),
    {
        &self.instances
    }

    pub fn len(&self) -> (n: usize)
        ensures
            n == self.contents().len(),
    {
        self.instances.len()
    }
}

/// Double buffered container for managing instances for models.
pub struct InstanceContainer<T, B> {
    container_a: InnerInstanceContainer<T, B>,
    container_b: InnerInstanceContainer<T, B>,
    double_buffer: DoubleBuffer,
}

impl<T, B> InstanceContainer<T, B> {
    /// The side being filled.
    pub closed spec fn update_side(&self) -> InnerInstanceContainer<T, B> {
        match self.double_buffer {
            DoubleBuffer::UpdateARenderB => self.container_a,
            DoubleBuffer::UpdateBRenderA => self.container_b,
        }
    }

    /// The side being drawn.
    pub closed spec fn render_side(&self) -> InnerInstanceContainer<T, B> {
        match self.double_buffer {
            DoubleBuffer::UpdateARenderB => self.container_b,
            DoubleBuffer::UpdateBRenderA => self.container_a,
        }
    }

    pub open spec fn wf(&self) -> bool {
        self.update_side().wf() && self.render_side().wf()
    }

    /// Starts with side A filled and side B drawn.
    pub fn new(container_a: InnerInstanceContainer<T, B>, container_b: InnerInstanceContainer<T, B>) -> (c: Self)
        ensures
            c.update_side() == container_a,
            c.render_side() == container_b,
    {
        Self { container_a, container_b, double_buffer: DoubleBuffer::UpdateARenderB }
    }

    /// Adds an instance to the side being filled, if there is room there.
    pub fn add_instance(&mut self, instance: T) -> (added: bool)
        ensures
            added == (old(self).update_side().contents().len() < old(self).update_side().capacity()),
            added ==> final(self).update_side().contents() == old(self).update_side().contents().push(instance)
                && final(self).update_side().is_dirty(),
            !added ==> final(self).update_side().contents() == old(self).update_side().contents()
                && final(self).update_side().is_dirty() == old(self).update_side().is_dirty(),
            final(self).update_side().capacity() == old(self).update_side().capacity(),
            final(self).update_side().spec_buffer() == old(self).update_side().spec_buffer(),
            final(self).render_side() == old(self).render_side(),
            old(self).wf() ==> final(self).wf(),
    {
        match self.double_buffer {
            DoubleBuffer::UpdateARenderB => {
                return self.container_a.add_instance(instance);
            },
            DoubleBuffer::UpdateBRenderA => {
                return self.container_b.add_instance(instance);
            },
        }
    }

    /// Swaps the sides: the side just filled is drawn from now on, and the other side is
    /// emptied to be filled.
    pub fn clear(&mut self)
        ensures
            swapped(*old(self), *final(self)),
            old(self).wf() ==> final(self).wf(),
    {
        match self.double_buffer {
            DoubleBuffer::UpdateARenderB => {
                self.double_buffer = DoubleBuffer::UpdateBRenderA;
                return self.container_b.clear();
            },
            DoubleBuffer::UpdateBRenderA => {
                self.double_buffer = DoubleBuffer::UpdateARenderB;
                return self.container_a.clear();
            },
        }
    }

    /// Marks the filled side's GPU buffer as current; returns whether its instances must be
    /// written to it first.
    pub fn update_buffer(&mut self) -> (write: bool)
        ensures
            write == (old(self).update_side().is_dirty() && old(self).update_side().contents().len() > 0),
            !final(self).update_side().is_dirty(),
            final(self).update_side().contents() == old(self).update_side().contents(),
            final(self).update_side().capacity() == old(self).update_side().capacity(),
            final(self).update_side().spec_buffer() == old(self).update_side().spec_buffer(),
            final(self).render_side() == old(self).render_side(),
    {
        match self.double_buffer {
            DoubleBuffer::UpdateARenderB => self.container_a.update_buffer(),
            DoubleBuffer::UpdateBRenderA => self.container_b.update_buffer(),
        }
    }

    /// The side being filled.
    pub fn updating(&self) -> (side: &InnerInstanceContainer<T, B>)
        ensures
            *side == self.update_side(),
    {
        match self.double_buffer {
            DoubleBuffer::UpdateARenderB => &self.container_a,
            DoubleBuffer::UpdateBRenderA => &self.container_b,
        }
    }

    /// Returns the render buffer.
    pub fn buffer(&self) -> (b: &B)
        ensures
            *b == self.render_side().spec_buffer(),
    {
        match self.double_buffer {
            DoubleBuffer::UpdateARenderB => self.container_b.buffer(),
            DoubleBuffer::UpdateBRenderA => self.container_a.buffer(),
        }
    }

    /// Returns the len of the render buffer.
    pub fn len(&self) -> (n: usize)
        ensures
            n == self.render_side().contents().len(),
    {
        match self.double_buffer {
            DoubleBuffer::UpdateARenderB => self.container_b.len(),
            DoubleBuffer::UpdateBRenderA => self.container_a.len(),
        }
    }

    /// Returns whether the instances drawn are empty.
    pub fn is_empty(&self) -> (empty: bool)
        ensures
            empty == (self.render_side().contents().len() == 0),
    {
        self.len() == 0
    }
}

/// What a clear does: the side just filled is drawn, and the side drawn so far, emptied,
/// is filled next.
pub open spec fn swapped<T, B>(before: InstanceContainer<T, B>, after: InstanceContainer<T, B>) -> bool {
    &&& after.render_side() == before.update_side()
    &&& after.update_side().contents() == Seq::<T>::empty()
    &&& after.update_side().is_dirty()
    &&& after.update_side().capacity() == before.render_side().capacity()
    &&& after.update_side().spec_buffer() == before.render_side().spec_buffer()
}

/// The two sides alternate: after two clears, the side filled first is filled again,
/// emptied, with its own GPU buffer and capacity, and the side filled in between is drawn.
pub proof fn lemma_sides_alternate<T, B>(
    c0: InstanceContainer<T, B>,
    c1: InstanceContainer<T, B>,
    c2: InstanceContainer<T, B>,
)
    requires
        swapped(c0, c1),
        swapped(c1, c2),
    ensures
        c2.update_side().spec_buffer() == c0.update_side().spec_buffer(),
        c2.update_side().capacity() == c0.update_side().capacity(),
        c2.update_side().contents() == Seq::<T>::empty(),
        c2.render_side() == c1.update_side(),
{
}

} // verus!
