//! A uniform value with its GPU binding, written to the GPU only after it changed.

use vstd::prelude::*;

verus! {

/// A uniform and its GPU side (bind group and buffer, held as an opaque handle).
pub struct UniformContainer<U, G> {
    uniform: U,
    gpu: G,
    dirty: bool,
}

impl<U, G> UniformContainer<U, G> {
    pub closed spec fn value(&self) -> U {
        self.uniform
    }

    pub closed spec fn spec_gpu(&self) -> G {
        self.gpu
    }

    /// Whether the GPU copy may be out of date.
    pub closed spec fn is_dirty(&self) -> bool {
        self.dirty
    }

    /// A container for `uniform`, already written to `gpu`.
    pub fn new(uniform: U, gpu: G) -> (c: Self)
        ensures
            c.value() == uniform,
            c.spec_gpu() == gpu,
            !c.is_dirty(),
    {
        Self { uniform, gpu, dirty: false }
    }

    /// Returns a reference to the uniform.
    pub fn uniform(&self) -> (u: &U)
        ensures
            *u == self.value(),
    {
        &self.uniform
    }

    /// Returns a mutable reference to the uniform; the GPU copy is then out of date.
    pub fn uniform_mut(&mut self) -> (u: &mut U)
        ensures
            *u == old(self).value(),
            final(self).value() == *final(u),
            final(self).is_dirty(),
            final(self).spec_gpu() == old(self).spec_gpu(),
    {
        self.dirty = true;
        &mut self.uniform
    }

    /// Returns the GPU side.
    pub fn gpu(&self) -> (g: &G)
        ensures
            *g == self.spec_gpu(),
    {
        &self.gpu
    }

    /// Marks the GPU copy current. Returns whether the uniform must be written to it first.
    pub fn write_buffer(&mut self) -> (write: bool)
        ensures
            write == old(self).is_dirty(),
            !final(self).is_dirty(),
            final(self).value() == old(self).value(),
            final(self).spec_gpu() == old(self).spec_gpu(),
    {
        if self.dirty {
            self.dirty = false;
            true
        } else {
            false
        }
    }
}

} // verus!
