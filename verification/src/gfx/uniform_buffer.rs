//! The uniform channel: one small record that every shader stage can read.
//!
//! A [`UniformBuffer`] stands for a GPU buffer of a fixed size, bound at one
//! slot. It remembers the record that was last written, so that the shell
//! can upload exactly that.

use vstd::prelude::*;

verus! {

/// The shader stages that can see a binding.
#[derive(Clone, Copy, Debug, PartialEq, Eq)]
pub struct ShaderStages {
    pub vertex: bool,
    pub fragment: bool,
    pub compute: bool,
}

/// How a uniform buffer appears in its bind group layout.
#[derive(Clone, Copy, Debug, PartialEq, Eq)]
pub struct BindGroupLayoutEntry {
    pub binding: u32,
    pub visibility: ShaderStages,
    pub has_dynamic_offset: bool,
    pub min_binding_size: Option<u64>,
}

/// What a uniform buffer is created from.
#[derive(Debug)]
pub struct UniformBufferCreateDesc<'a, T> {
    /// The record that the buffer holds at first.
    pub data: &'a T,
    /// Size of the record on the GPU, in bytes.
    pub size: u64,
    pub binding: u32,
}

/// A uniform buffer holding one record of type `T`.
#[derive(Clone, Copy, Debug, PartialEq, Eq)]
pub struct UniformBuffer<T> {
    /// The record that was written last.
    pub contents: T,
    /// Size of the buffer, in bytes. It is fixed when the buffer is created.
    pub size: u64,
    pub binding: u32,
}

/// Visible to the vertex and the fragment stage, not to compute.
pub open spec fn vertex_fragment() -> ShaderStages {
    ShaderStages { vertex: true, fragment: true, compute: false }
}

impl<T: Copy> UniformBuffer<T> {
    /// A buffer of `create_desc.size` bytes at slot `create_desc.binding`,
    /// filled with `create_desc.data`.
    pub fn new(create_desc: &UniformBufferCreateDesc<T>) -> (buffer: Self)
        ensures
            buffer.contents == *create_desc.data,
            buffer.size == create_desc.size,
            buffer.binding == create_desc.binding,
    {
        UniformBuffer {
            contents: *create_desc.data,
            size: create_desc.size,
            binding: create_desc.binding,
        }
    }

    /// Overwrites the record. The buffer keeps its size and its slot.
    pub fn update(&mut self, data: &T)
        ensures
            final(self).contents == *data,
            final(self).size == old(self).size,
            final(self).binding == old(self).binding,
        no_unwind
    {
        self.contents = *data;
    }

    /// The layout entry that exposes this buffer: at its slot, to the vertex
    /// and fragment stages, as a whole, at no dynamic offset.
    pub fn layout_entry(&self) -> (entry: BindGroupLayoutEntry)
        ensures
            entry == (BindGroupLayoutEntry {
                binding: self.binding,
                visibility: vertex_fragment(),
                has_dynamic_offset: false,
                min_binding_size: None,
            }),
    {
        BindGroupLayoutEntry {
            binding: self.binding,
            visibility: ShaderStages { vertex: true, fragment: true, compute: false },
            has_dynamic_offset: false,
            min_binding_size: None,
        }
    }
}

} // verus!
