//! The visibility compactor: for every occupied cell with at least one
//! exposed face, one visible-voxel record is appended to the output buffer.
//! The records form an unordered set keyed by cell index; the final counter
//! value equals the number of visible cells exactly.

use vstd::prelude::*;

use crate::chunk::{
    cell_count, cell_coords, cell_index, in_chunk, index_x, index_y, index_z,
    lemma_cell_index_coords, num_cells,
};
use crate::field::{occupied_word, DenseVoxelField};
use crate::voxel::SparseVoxel;

verus! {

/// Offset along `x` of the neighbor in direction `k`.
pub open spec fn dir_dx(k: int) -> int {
    if k == 0 {
        1
    } else if k == 1 {
        -1
    } else {
        0
    }
}

/// Offset along `y` of the neighbor in direction `k`.
pub open spec fn dir_dy(k: int) -> int {
    if k == 2 {
        1
    } else if k == 3 {
        -1
    } else {
        0
    }
}

/// Offset along `z` of the neighbor in direction `k`.
pub open spec fn dir_dz(k: int) -> int {
    if k == 4 {
        1
    } else if k == 5 {
        -1
    } else {
        0
    }
}

/// The mask weight of direction `k`: bit `k` of the packed neighbor mask.
pub open spec fn face_bit(k: int) -> int {
    if k == 0 {
        1
    } else if k == 1 {
        2
    } else if k == 2 {
        4
    } else if k == 3 {
        8
    } else if k == 4 {
        16
    } else {
        32
    }
}

/// Whether the neighbor of `(x, y, z)` in direction `k` lies inside the
/// chunk and is occupied.
pub open spec fn neighbor_occupied(v: Seq<u32>, side: u32, x: int, y: int, z: int, k: int) -> bool {
    let nx = x + dir_dx(k);
    let ny = y + dir_dy(k);
    let nz = z + dir_dz(k);
    in_chunk(side, nx, ny, nz) && occupied_word(v[cell_index(side, nx, ny, nz)])
}

/// Face `k` of `(x, y, z)` is exposed: its neighbor in that direction is
/// outside the chunk or unoccupied.
pub open spec fn face_exposed(v: Seq<u32>, side: u32, x: int, y: int, z: int, k: int) -> bool {
    !neighbor_occupied(v, side, x, y, z, k)
}

/// The contribution of one face to the packed mask.
pub open spec fn bit_if(b: bool, w: int) -> int {
    if b {
        w
    } else {
        0
    }
}

/// The 6-bit packed exposure mask of a cell: bit `k` is set exactly when
/// face `k` is exposed.
pub open spec fn exposure_mask(v: Seq<u32>, side: u32, x: int, y: int, z: int) -> int {
    bit_if(face_exposed(v, side, x, y, z, 0), 1) + bit_if(face_exposed(v, side, x, y, z, 1), 2)
        + bit_if(face_exposed(v, side, x, y, z, 2), 4) + bit_if(
        face_exposed(v, side, x, y, z, 3),
        8,
    ) + bit_if(face_exposed(v, side, x, y, z, 4), 16) + bit_if(
        face_exposed(v, side, x, y, z, 5),
        32,
    )
}

/// The exposure mask of the cell a linear index names.
pub open spec fn mask_at(v: Seq<u32>, side: u32, i: int) -> int {
    exposure_mask(v, side, index_x(side, i), index_y(side, i), index_z(side, i))
}

/// A cell is visible when it is occupied and at least one face is exposed.
pub open spec fn cell_visible(v: Seq<u32>, side: u32, i: int) -> bool {
    occupied_word(v[i]) && mask_at(v, side, i) != 0
}

/// Number of visible cells among the first `n` linear indices.
pub open spec fn count_visible(v: Seq<u32>, side: u32, n: int) -> int
    decreases n,
{
    if n <= 0 {
        0
    } else {
        count_visible(v, side, n - 1) + bit_if(cell_visible(v, side, n - 1), 1)
    }
}

/// What one compaction dispatch guarantees of its output: the record count
/// equals the number of visible cells; every record names a visible cell and
/// carries its exact mask; every visible cell has a record; and no two
/// records name the same cell. Record order carries no meaning.
pub open spec fn compaction_ok(v: Seq<u32>, side: u32, r: Seq<SparseVoxel>) -> bool {
    &&& r.len() == count_visible(v, side, cell_count(side))
    &&& forall|j: int|
        0 <= j < r.len() ==> (#[trigger] r[j]).index < cell_count(side) && cell_visible(
            v,
            side,
            r[j].index as int,
        ) && r[j].neighbours as int == mask_at(v, side, r[j].index as int)
    &&& forall|c: int|
        0 <= c < cell_count(side) && cell_visible(v, side, c) ==> exists|j: int|
            0 <= j < r.len() && (#[trigger] r[j]).index == c
    &&& forall|j1: int, j2: int|
        0 <= j1 < j2 < r.len() ==> (#[trigger] r[j1]).index != (#[trigger] r[j2]).index
}

/// The visible cells never outnumber the cells themselves, so an output
/// buffer with one slot per cell can never overflow.
pub proof fn lemma_count_visible_le(v: Seq<u32>, side: u32, n: int)
    requires
        0 <= n,
    ensures
        0 <= count_visible(v, side, n) <= n,
    decreases n,
{
    if n > 0 {
        lemma_count_visible_le(v, side, n - 1);
    }
}

/// A wholly unoccupied field has no visible cells at all.
pub proof fn lemma_empty_field_count_zero(v: Seq<u32>, side: u32, n: int)
    requires
        0 <= n,
        forall|i: int| 0 <= i < n ==> !occupied_word(#[trigger] v[i]),
    ensures
        count_visible(v, side, n) == 0,
    decreases n,
{
    if n > 0 {
        lemma_empty_field_count_zero(v, side, n - 1);
    }
}

/// A cell whose 6 neighbors all lie in the chunk and are all occupied is
/// fully enclosed: its mask is zero and it is not visible.
pub proof fn lemma_enclosed_cell_not_visible(v: Seq<u32>, side: u32, x: int, y: int, z: int)
    requires
        0 < side,
        in_chunk(side, x, y, z),
        forall|k: int| 0 <= k < 6 ==> #[trigger] neighbor_occupied(v, side, x, y, z, k),
    ensures
        exposure_mask(v, side, x, y, z) == 0,
        !cell_visible(v, side, cell_index(side, x, y, z)),
{
    lemma_cell_index_coords(side, x, y, z);
    assert(neighbor_occupied(v, side, x, y, z, 0));
    assert(neighbor_occupied(v, side, x, y, z, 1));
    assert(neighbor_occupied(v, side, x, y, z, 2));
    assert(neighbor_occupied(v, side, x, y, z, 3));
    assert(neighbor_occupied(v, side, x, y, z, 4));
    assert(neighbor_occupied(v, side, x, y, z, 5));
}

/// An occupied cell none of whose 6 neighbors is an occupied in-chunk cell
/// has every face exposed: its mask has all 6 bits set, and it is visible.
pub proof fn lemma_isolated_cell_mask_full(v: Seq<u32>, side: u32, x: int, y: int, z: int)
    requires
        0 < side,
        in_chunk(side, x, y, z),
        occupied_word(v[cell_index(side, x, y, z)]),
        forall|k: int| 0 <= k < 6 ==> !#[trigger] neighbor_occupied(v, side, x, y, z, k),
    ensures
        exposure_mask(v, side, x, y, z) == 63,
        cell_visible(v, side, cell_index(side, x, y, z)),
{
    lemma_cell_index_coords(side, x, y, z);
    assert(!neighbor_occupied(v, side, x, y, z, 0));
    assert(!neighbor_occupied(v, side, x, y, z, 1));
    assert(!neighbor_occupied(v, side, x, y, z, 2));
    assert(!neighbor_occupied(v, side, x, y, z, 3));
    assert(!neighbor_occupied(v, side, x, y, z, 4));
    assert(!neighbor_occupied(v, side, x, y, z, 5));
}

/// The exposure mask of a cell, as the compaction dispatch computes it.
pub fn compute_mask(field: &DenseVoxelField, x: u32, y: u32, z: u32) -> (m: u32)
    requires
        field.wf(),
        in_chunk(field.spec_side(), x as int, y as int, z as int),
    ensures
        m as int == exposure_mask(field@, field.spec_side(), x as int, y as int, z as int),
        m < 64,
{
    let side = field.side();
    let mut m: u32 = 0;
    if x + 1 >= side || field.get_cell(x + 1, y, z) == 0 {
        m = m + 1;
    }
    proof {
        assert(m == bit_if(face_exposed(field@, side, x as int, y as int, z as int, 0), 1));
    }
    if x == 0 || field.get_cell(x - 1, y, z) == 0 {
        m = m + 2;
    }
    if y + 1 >= side || field.get_cell(x, y + 1, z) == 0 {
        m = m + 4;
    }
    if y == 0 || field.get_cell(x, y - 1, z) == 0 {
        m = m + 8;
    }
    if z + 1 >= side || field.get_cell(x, y, z + 1) == 0 {
        m = m + 16;
    }
    if z == 0 || field.get_cell(x, y, z - 1) == 0 {
        m = m + 32;
    }
    m
}

/// The compaction dispatch: scan every cell of the field and emit one record
/// per visible cell. The returned vector stands for the populated prefix of
/// the visible-voxel buffer; its length is the final counter value.
pub fn compact(field: &DenseVoxelField) -> (r: Vec<SparseVoxel>)
    requires
        field.wf(),
    ensures
        compaction_ok(field@, field.spec_side(), r@),
        r@.len() <= cell_count(field.spec_side()),
{
    let side = field.side();
    let n = num_cells(side);
    let mut r: Vec<SparseVoxel> = Vec::new();
    let mut i: u32 = 0;
    while i < n
        invariant
            field.wf(),
            side == field.spec_side(),
            n == cell_count(side),
            i <= n,
            r@.len() == count_visible(field@, side, i as int),
            forall|j: int|
                0 <= j < r@.len() ==> (#[trigger] r@[j]).index < i && cell_visible(
                    field@,
                    side,
                    r@[j].index as int,
                ) && r@[j].neighbours as int == mask_at(field@, side, r@[j].index as int),
            forall|j1: int, j2: int| 0 <= j1 < j2 < r@.len() ==> r@[j1].index < r@[j2].index,
            forall|c: int|
                0 <= c < i && cell_visible(field@, side, c) ==> exists|j: int|
                    0 <= j < r@.len() && (#[trigger] r@[j]).index == c,
        decreases n - i,
    {
        proof {
            lemma_count_visible_le(field@, side, i as int);
        }
        let (x, y, z) = cell_coords(side, i);
        let w = field.get_cell(x, y, z);
        let ghost prev = r@;
        if w != 0 {
            let m = compute_mask(field, x, y, z);
            if m != 0 {
                r.push(SparseVoxel { index: i, neighbours: m });
            }
        }
        proof {
            assert(count_visible(field@, side, i + 1) == count_visible(field@, side, i as int)
                + bit_if(cell_visible(field@, side, i as int), 1));
            assert forall|c: int| 0 <= c < i + 1 && cell_visible(field@, side, c) implies exists|
                j: int,
            | 0 <= j < r@.len() && (#[trigger] r@[j]).index == c by {
                if c < i as int {
                    let j0 = choose|j: int| 0 <= j < prev.len() && (#[trigger] prev[j]).index == c;
                    assert(r@[j0].index == c);
                } else {
                    assert(r@[prev.len() as int].index == i);
                }
            }
        }
        i = i + 1;
    }
    proof {
        lemma_count_visible_le(field@, side, n as int);
    }
    r
}

/// The set of records one compaction of a field must produce: one for each
/// visible cell, carrying that cell's exact mask.
pub open spec fn visible_record_set(v: Seq<u32>, side: u32) -> Set<SparseVoxel> {
    Set::new(
        |rec: SparseVoxel|
            rec.index < cell_count(side) && cell_visible(v, side, rec.index as int)
                && rec.neighbours as int == mask_at(v, side, rec.index as int),
    )
}

/// The records of any compaction, read as a set, are exactly the visible
/// records of the field: slot order is the only freedom the compactor has.
pub proof fn lemma_compaction_records_exact(v: Seq<u32>, side: u32, r: Seq<SparseVoxel>)
    requires
        compaction_ok(v, side, r),
    ensures
        r.to_set() =~= visible_record_set(v, side),
{
    assert forall|rec: SparseVoxel| r.to_set().contains(rec) implies visible_record_set(
        v,
        side,
    ).contains(rec) by {
        let j = choose|j: int| 0 <= j < r.len() && r[j] == rec;
        assert(r[j].index < cell_count(side));
    }
    assert forall|rec: SparseVoxel| visible_record_set(v, side).contains(rec) implies r
        .to_set()
        .contains(rec) by {
        let c = rec.index as int;
        assert(exists|j: int| 0 <= j < r.len() && (#[trigger] r[j]).index == c);
        let j = choose|j: int| 0 <= j < r.len() && (#[trigger] r[j]).index == c;
        assert(r[j] == rec);
        assert(r.contains(rec));
    }
}

/// Compacting equal fields yields the same counter value and the same set of
/// records, whatever slot order either compaction used.
pub proof fn lemma_compaction_deterministic(
    v1: Seq<u32>,
    v2: Seq<u32>,
    side: u32,
    r1: Seq<SparseVoxel>,
    r2: Seq<SparseVoxel>,
)
    requires
        v1 == v2,
        compaction_ok(v1, side, r1),
        compaction_ok(v2, side, r2),
    ensures
        r1.len() == r2.len(),
        r1.to_set() == r2.to_set(),
{
    lemma_compaction_records_exact(v1, side, r1);
    lemma_compaction_records_exact(v2, side, r2);
    assert(r1.to_set() =~= r2.to_set());
}

} // verus!
