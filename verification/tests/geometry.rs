//! Chunk geometry, vertex layouts, and buffer sizing.

use voxel_cull::chunk::{cell_coords, linear_index, num_cells, workgroup_count, CHUNK_SIZE, NUM_VOXELS};
use voxel_cull::pipeline::{
    counter_buffer_size, indirect_buffer_size, visible_buffer_size, voxel_buffer_size,
};
use voxel_cull::voxel::{SparseVoxel, Voxel};

#[test]
fn chunk_constants() {
    assert_eq!(CHUNK_SIZE, 128);
    assert_eq!(NUM_VOXELS, 128 * 128 * 128);
    assert_eq!(num_cells(4), 64);
    assert_eq!(num_cells(128), 2_097_152);
}

#[test]
fn linear_index_values() {
    assert_eq!(linear_index(4, 0, 0, 0), 0);
    assert_eq!(linear_index(4, 1, 0, 0), 1);
    assert_eq!(linear_index(4, 0, 1, 0), 4);
    assert_eq!(linear_index(4, 0, 0, 1), 16);
    assert_eq!(linear_index(4, 1, 2, 3), 57);
    assert_eq!(linear_index(4, 3, 3, 3), 63);
    assert_eq!(linear_index(128, 127, 127, 127), NUM_VOXELS - 1);
    assert_eq!(cell_coords(128, NUM_VOXELS - 1), (127, 127, 127));
}

#[test]
fn linear_index_round_trip() {
    let side: u32 = 8;
    for x in 0..side {
        for y in 0..side {
            for z in 0..side {
                let i: u32 = linear_index(side, x, y, z);
                assert_eq!(cell_coords(side, i), (x, y, z));
            }
        }
    }
}

#[test]
fn workgroups_cover_chunk_exactly() {
    assert_eq!(workgroup_count(128), 32);
    assert_eq!(workgroup_count(4), 1);
    assert_eq!(workgroup_count(8) * 4, 8);
}

#[test]
fn voxel_vertex_layout() {
    let d = Voxel::desc();
    assert_eq!(d.array_stride, 4);
    assert!(d.step_per_instance);
    assert_eq!(d.attrs.len(), 1);
    assert_eq!(d.attrs[0].offset, 0);
    assert_eq!(d.attrs[0].shader_location, 0);
}

#[test]
fn sparse_voxel_vertex_layout() {
    let d = SparseVoxel::desc();
    assert_eq!(d.array_stride, 8);
    assert!(d.step_per_instance);
    assert_eq!(d.attrs.len(), 2);
    assert_eq!(d.attrs[0].offset, 0);
    assert_eq!(d.attrs[0].shader_location, 0);
    assert_eq!(d.attrs[1].offset, 4);
    assert_eq!(d.attrs[1].shader_location, 1);
}

#[test]
fn buffer_sizes() {
    assert_eq!(voxel_buffer_size(128), 4 * 2_097_152);
    assert_eq!(visible_buffer_size(128), 8 * 2_097_152);
    assert_eq!(voxel_buffer_size(4), 256);
    assert_eq!(visible_buffer_size(4), 512);
    assert_eq!(counter_buffer_size(), 4);
    assert_eq!(indirect_buffer_size(), 16);
}
