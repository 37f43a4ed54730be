//! What the library keeps of the buffers of a context: where each is bound,
//! and what is decided before data is copied into one.
//!
//! The buffer objects themselves stay with the caller, who asks here what to
//! tell the context.

use vstd::prelude::*;

use crate::constants::{BindingPoint, BufferUsage, IndexType};

verus! {

/// A buffer: the target it is made for, what it is used for, and the
/// target that it is bound to, if it is bound.
#[derive(Debug, Clone, Copy)]
pub struct GlBuffer {
    pub current_binding: Option<BindingPoint>,
    pub binding_point: BindingPoint,
    pub usage: BufferUsage,
}

impl GlBuffer {
    /// A buffer for the target `binding_point` that is not bound.
    pub fn new(binding_point: BindingPoint, usage: BufferUsage) -> (buffer: Self)
        ensures
            buffer.current_binding is None,
            buffer.binding_point == binding_point,
            buffer.usage == usage,
    {
        GlBuffer { current_binding: None, binding_point, usage }
    }

    /// Takes note that the buffer is bound to `bind_point`, and gives the
    /// target at which the context is to bind it.
    pub fn bind_to(&mut self, bind_point: BindingPoint) -> (target: BindingPoint)
        ensures
            target == bind_point,
            final(self).current_binding == Some(bind_point),
            final(self).binding_point == old(self).binding_point,
            final(self).usage == old(self).usage,
    {
        self.current_binding = Some(bind_point);
        bind_point
    }

    /// Takes note that the buffer is bound to the target that it is made
    /// for, and gives that target.
    pub fn bind(&mut self) -> (target: BindingPoint)
        ensures
            target == old(self).binding_point,
            final(self).current_binding == Some(old(self).binding_point),
            final(self).binding_point == old(self).binding_point,
            final(self).usage == old(self).usage,
    {
        let bind_point = self.binding_point;
        self.bind_to(bind_point)
    }

    /// Takes note that the buffer is bound no longer, and gives the target
    /// at which the context is to unbind it: the one that it was bound to.
    /// A buffer that was not bound needs no unbinding.
    pub fn unbind(&mut self) -> (target: Option<BindingPoint>)
        ensures
            target == old(self).current_binding,
            final(self).current_binding is None,
            final(self).binding_point == old(self).binding_point,
            final(self).usage == old(self).usage,
    {
        let current_binding = self.current_binding;
        self.current_binding = None;
        current_binding
    }
}

/// A buffer of indices, and the type of the indices.
#[derive(Debug, Clone, Copy)]
pub struct GlIndexBuffer {
    pub index_type: IndexType,
    pub buffer: GlBuffer,
}

/// A buffer of uniforms, and the place of its block.
#[derive(Debug, Clone, Copy)]
pub struct GlUniformBuffer {
    pub gl_buffer: GlBuffer,
    pub binding_point_location: u32,
}

/// Whether `copy_length` bytes from the byte `src_byte_offset` on lie
/// within a source of `src_len` bytes.
pub open spec fn copy_in_bounds(src_len: usize, copy_length: u32, src_byte_offset: u32) -> bool {
    copy_length + src_byte_offset <= src_len
}

/// Tells whether a partial copy stays within its source.
pub fn check_copy_bounds(src_len: usize, copy_length: u32, src_byte_offset: u32) -> (within: bool)
    ensures
        within == copy_in_bounds(src_len, copy_length, src_byte_offset),
{
    let end: u64 = copy_length as u64 + src_byte_offset as u64;
    end <= src_len as u64
}

} // verus!
