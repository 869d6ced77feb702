//! The voxel record types shared between the compute stages and the
//! rasterization consumer, together with the per-instance vertex layout
//! through which the consumer reads the compacted records.

use vstd::prelude::*;

verus! {

/// One word of the dense voxel field: a non-zero value marks the cell as
/// occupied; the value itself is the cell's material.
#[derive(Copy, Clone, Debug, PartialEq, Eq, Structural)]
pub struct Voxel {
    pub value: u32,
}

/// One compacted visible-voxel record: the linear index of the cell in the
/// dense field, and a 6-bit packed mask whose bit `k` is set exactly when the
/// cell's neighbor in direction `k` is unoccupied or outside the chunk.
#[derive(Copy, Clone, Debug, PartialEq, Eq, Structural)]
pub struct SparseVoxel {
    pub index: u32,
    pub neighbours: u32,
}

/// Size in bytes of one dense voxel word.
pub const VOXEL_BYTES: u64 = 4;

/// Size in bytes of one visible-voxel record: two unsigned 32-bit words.
pub const SPARSE_VOXEL_BYTES: u64 = 8;

/// One vertex attribute of a record, as plain values: the byte offset of the
/// attribute inside the record and the shader location it binds to. Every
/// attribute is a single unsigned 32-bit word.
#[derive(Copy, Clone, Debug, PartialEq, Eq, Structural)]
pub struct VertexAttr {
    pub offset: u64,
    pub shader_location: u32,
}

/// A vertex buffer layout, as plain values: the byte stride from one record
/// to the next, whether the buffer advances per instance rather than per
/// vertex, and the attributes of one record.
#[derive(Clone, Debug)]
pub struct VertexLayout {
    pub array_stride: u64,
    pub step_per_instance: bool,
    pub attrs: Vec<VertexAttr>,
}

impl Voxel {
    /// The single attribute of a dense voxel word: its value, at offset 0,
    /// bound to shader location 0.
    pub fn attr() -> (a: Vec<VertexAttr>)
        ensures
            a@.len() == 1,
            a@[0] == (VertexAttr { offset: 0, shader_location: 0 }),
    {
        let mut a: Vec<VertexAttr> = Vec::new();
        a.push(VertexAttr { offset: 0, shader_location: 0 });
        a
    }

    /// Vertex layout of a buffer of dense voxel words, stepped per instance.
    pub fn desc() -> (d: VertexLayout)
        ensures
            d.array_stride == VOXEL_BYTES,
            d.step_per_instance,
            d.attrs@.len() == 1,
            d.attrs@[0] == (VertexAttr { offset: 0, shader_location: 0 }),
    {
        VertexLayout { array_stride: VOXEL_BYTES, step_per_instance: true, attrs: Voxel::attr() }
    }
}

impl SparseVoxel {
    /// The two attributes of a visible-voxel record: the cell index at offset
    /// 0 bound to shader location 0, and the neighbor mask one word later at
    /// shader location 1.
    pub fn attr() -> (a: Vec<VertexAttr>)
        ensures
            a@.len() == 2,
            a@[0] == (VertexAttr { offset: 0, shader_location: 0 }),
            a@[1] == (VertexAttr { offset: VOXEL_BYTES, shader_location: 1 }),
    {
        let mut a: Vec<VertexAttr> = Vec::new();
        a.push(VertexAttr { offset: 0, shader_location: 0 });
        a.push(VertexAttr { offset: VOXEL_BYTES, shader_location: 1 });
        a
    }

    /// Vertex layout of the compacted visible-voxel buffer, stepped per
    /// instance: each rasterized instance reads one record.
    pub fn desc() -> (d: VertexLayout)
        ensures
            d.array_stride == SPARSE_VOXEL_BYTES,
            d.step_per_instance,
            d.attrs@.len() == 2,
            d.attrs@[0] == (VertexAttr { offset: 0, shader_location: 0 }),
            d.attrs@[1] == (VertexAttr { offset: VOXEL_BYTES, shader_location: 1 }),
    {
        VertexLayout {
            array_stride: SPARSE_VOXEL_BYTES,
            step_per_instance: true,
            attrs: SparseVoxel::attr(),
        }
    }
}

} // verus!
