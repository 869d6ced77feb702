//! Generation and visibility compaction: counts, masks, determinism.

use voxel_cull::chunk::{linear_index, num_cells};
use voxel_cull::field::DenseVoxelField;
use voxel_cull::visibility::compact;
use voxel_cull::voxel::SparseVoxel;

fn find_record(records: &[SparseVoxel], index: u32) -> Option<SparseVoxel> {
    records.iter().copied().find(|r| r.index == index)
}

fn all_occupied(side: u32) -> DenseVoxelField {
    let n: u32 = num_cells(side);
    DenseVoxelField::from_words(side, vec![1u32; n as usize])
}

#[test]
fn empty_chunk_has_no_visible_voxels() {
    let field = DenseVoxelField::new(4);
    let records = compact(&field);
    assert_eq!(records.len(), 0);
}

#[test]
fn full_chunk_side_4_has_56_visible_voxels() {
    let field = all_occupied(4);
    let records = compact(&field);
    // All surface cells of a 4-cube are visible; the 2x2x2 interior is fully
    // enclosed: 64 - 8 = 56.
    assert_eq!(records.len(), 56);
    assert!(records.len() <= 64);
}

#[test]
fn full_chunk_surface_masks() {
    let field = all_occupied(4);
    let records = compact(&field);
    // Corner cell: the three out-of-bounds faces (-x, -y, -z) are exposed.
    let corner = find_record(&records, linear_index(4, 0, 0, 0)).unwrap();
    assert_eq!(corner.neighbours, 2 + 8 + 32);
    // Opposite corner: +x, +y, +z exposed.
    let far = find_record(&records, linear_index(4, 3, 3, 3)).unwrap();
    assert_eq!(far.neighbours, 1 + 4 + 16);
    // Face-center cell of the bottom: only -y touches the boundary.
    let bottom = find_record(&records, linear_index(4, 1, 0, 1)).unwrap();
    assert_eq!(bottom.neighbours, 8);
    // Interior cells are fully enclosed and never emitted.
    assert!(find_record(&records, linear_index(4, 1, 1, 1)).is_none());
    assert!(find_record(&records, linear_index(4, 2, 2, 1)).is_none());
}

#[test]
fn isolated_cell_has_all_six_bits_set() {
    let mut field = DenseVoxelField::new(4);
    field.set_cell(1, 1, 1, 1);
    let records = compact(&field);
    assert_eq!(records.len(), 1);
    assert_eq!(records[0].index, linear_index(4, 1, 1, 1));
    assert_eq!(records[0].neighbours, 63);
}

#[test]
fn enclosed_cell_is_not_emitted() {
    let mut field = DenseVoxelField::new(4);
    field.set_cell(1, 1, 1, 1);
    field.set_cell(2, 1, 1, 1);
    field.set_cell(0, 1, 1, 1);
    field.set_cell(1, 2, 1, 1);
    field.set_cell(1, 0, 1, 1);
    field.set_cell(1, 1, 2, 1);
    field.set_cell(1, 1, 0, 1);
    let records = compact(&field);
    // The six neighbors are each visible; the enclosed center is not.
    assert_eq!(records.len(), 6);
    assert!(find_record(&records, linear_index(4, 1, 1, 1)).is_none());
    assert!(find_record(&records, linear_index(4, 0, 1, 1)).is_some());
    assert!(find_record(&records, linear_index(4, 1, 1, 2)).is_some());
}

#[test]
fn boundary_cell_mask_mixes_bounds_and_emptiness() {
    // A single occupied cell on a face of the chunk: the out-of-bounds face
    // and the five empty-neighbor faces are all exposed.
    let mut field = DenseVoxelField::new(4);
    field.set_cell(0, 2, 2, 5);
    let records = compact(&field);
    assert_eq!(records.len(), 1);
    assert_eq!(records[0].index, linear_index(4, 0, 2, 2));
    assert_eq!(records[0].neighbours, 63);
}

#[test]
fn generation_matches_procedural_function() {
    let mut field = DenseVoxelField::new(4);
    field.generate();
    for x in 0..4u32 {
        for y in 0..4u32 {
            for z in 0..4u32 {
                let expected: u32 = DenseVoxelField::procedural_value(4, x, y, z);
                assert_eq!(field.get_cell(x, y, z), expected);
            }
        }
    }
    // The terrain height is never negative, so the bottom layer is solid.
    for x in 0..4u32 {
        for z in 0..4u32 {
            assert_eq!(field.get_cell(x, 0, z), 1);
        }
    }
}

#[test]
fn generation_and_compaction_are_idempotent() {
    let mut first = DenseVoxelField::new(8);
    let mut second = DenseVoxelField::new(8);
    first.generate();
    second.generate();
    for x in 0..8u32 {
        for y in 0..8u32 {
            for z in 0..8u32 {
                assert_eq!(first.get_cell(x, y, z), second.get_cell(x, y, z));
            }
        }
    }
    let mut r1 = compact(&first);
    let mut r2 = compact(&second);
    assert_eq!(r1.len(), r2.len());
    // Slot order carries no meaning: compare as sets keyed by cell index.
    r1.sort_by_key(|r| r.index);
    r2.sort_by_key(|r| r.index);
    assert_eq!(r1, r2);
}
