//! Host-side buffers: vertex, index and uniform data as uploaded once at
//! startup and read every frame thereafter.

use vstd::prelude::*;
use crate::layout::{stride_of, VertexLayout};
use crate::scalar::Fixed;

verus! {

/// A vertex buffer: a flat component array together with the per-vertex
/// stride its layout implies.
#[derive(Clone, Debug, PartialEq)]
pub struct VertexBuffer {
    /// The flat vertex data, `stride` components per vertex.
    pub data: Vec<Fixed>,
    /// Components per vertex.
    pub stride: usize,
}

impl VertexBuffer {
    /// A vertex buffer is well formed when its stride is positive and its
    /// data is whole vertices.
    pub open spec fn wf(self) -> bool {
        &&& self.stride > 0
        &&& self.data@.len() as int % self.stride as int == 0
    }

    /// How many vertices the buffer holds.
    pub open spec fn spec_vertex_count(self) -> int {
        self.data@.len() as int / self.stride as int
    }

    /// How many vertices the buffer holds.
    pub fn vertex_count(&self) -> (n: usize)
        requires
            self.wf(),
        ensures
            n == self.spec_vertex_count(),
    {
        self.data.len() / self.stride
    }
}

/// An index buffer: an ordered list of vertex indices.
#[derive(Clone, Debug, PartialEq)]
pub struct IndexBuffer {
    /// The indices, in draw order.
    pub data: Vec<u32>,
}

/// A uniform buffer: a fixed-size scalar block bound by slot and name.
#[derive(Clone, Debug, PartialEq)]
pub struct UniformBuffer {
    /// The binding slot the block attaches to.
    pub binding: u32,
    /// The block's name in the shader source.
    pub name: String,
    /// The block's scalars.
    pub data: Vec<Fixed>,
}

/// Builds a vertex buffer over `data` laid out as `layout` declares; the
/// data must be whole vertices of that layout.
pub fn create_vertex_buffer(layout: &VertexLayout, data: Vec<Fixed>) -> (b: VertexBuffer)
    requires
        layout.wf(),
        stride_of(layout.attrs@) > 0,
        data@.len() as int % stride_of(layout.attrs@) as int == 0,
    ensures
        b.data@ == data@,
        b.stride == stride_of(layout.attrs@),
        b.wf(),
{
    let stride = layout.stride_components();
    VertexBuffer { data, stride }
}

/// Builds an index buffer over `data`.
pub fn create_index_buffer(data: Vec<u32>) -> (b: IndexBuffer)
    ensures
        b.data@ == data@,
{
    IndexBuffer { data }
}

/// Builds a uniform buffer holding `data`, to be bound at slot `binding`
/// under `name`.
pub fn create_uniform_buffer(binding: u32, name: String, data: Vec<Fixed>) -> (b: UniformBuffer)
    ensures
        b.binding == binding,
        b.name@ == name@,
        b.data@ == data@,
{
    UniformBuffer { binding, name, data }
}

} // verus!
