//! Geometry of the cubic voxel chunk: the fixed chunk dimensions, the
//! linearization of 3D cell coordinates into flat buffer indices, and the
//! compute dispatch grid that covers the chunk exactly.

use vstd::prelude::*;
use vstd::arithmetic::div_mod::lemma_fundamental_div_mod_converse;

verus! {

/// Side length, in cells, of the chunk the renderer processes each frame.
pub const CHUNK_SIZE: u32 = 128;

/// Total number of cells in the chunk: one occupancy word per cell.
pub const NUM_VOXELS: u32 = CHUNK_SIZE * CHUNK_SIZE * CHUNK_SIZE;

/// Cells covered by one compute workgroup along each axis.
pub const WORKGROUP_EXTENT: u32 = 4;

/// A side length the pipeline accepts: positive, no larger than the fixed
/// chunk dimension, and exactly divisible into workgroups so the dispatch
/// grid covers the chunk with no remainder.
pub open spec fn valid_side(side: u32) -> bool {
    0 < side <= CHUNK_SIZE && side % WORKGROUP_EXTENT == 0
}

/// Number of cells in a chunk of the given side length.
pub open spec fn cell_count(side: u32) -> int {
    (side as int) * (side as int) * (side as int)
}

/// Whether `(x, y, z)` lies inside a chunk of the given side length.
pub open spec fn in_chunk(side: u32, x: int, y: int, z: int) -> bool {
    0 <= x < side && 0 <= y < side && 0 <= z < side
}

/// Linearization of cell coordinates: `x` varies fastest, then `y`, then `z`.
pub open spec fn cell_index(side: u32, x: int, y: int, z: int) -> int {
    x + (side as int) * (y + (side as int) * z)
}

/// The `x` coordinate encoded in a linear cell index.
pub open spec fn index_x(side: u32, i: int) -> int {
    i % (side as int)
}

/// The `y` coordinate encoded in a linear cell index.
pub open spec fn index_y(side: u32, i: int) -> int {
    (i / (side as int)) % (side as int)
}

/// The `z` coordinate encoded in a linear cell index.
pub open spec fn index_z(side: u32, i: int) -> int {
    i / ((side as int) * (side as int))
}

/// The linear index of an in-chunk cell lies strictly below the cell count.
pub proof fn lemma_cell_index_bounds(side: u32, x: int, y: int, z: int)
    requires
        0 < side,
        in_chunk(side, x, y, z),
    ensures
        0 <= cell_index(side, x, y, z) < cell_count(side),
{
    let s: int = side as int;
    assert(0 <= x + s * (y + s * z) < s * s * s) by (nonlinear_arith)
        requires
            0 < s,
            0 <= x < s,
            0 <= y < s,
            0 <= z < s;
}

/// Linearization is injective: decoding a linear index recovers exactly the
/// coordinates it was built from.
pub proof fn lemma_cell_index_coords(side: u32, x: int, y: int, z: int)
    requires
        0 < side,
        in_chunk(side, x, y, z),
    ensures
        index_x(side, cell_index(side, x, y, z)) == x,
        index_y(side, cell_index(side, x, y, z)) == y,
        index_z(side, cell_index(side, x, y, z)) == z,
{
    let s: int = side as int;
    let i: int = cell_index(side, x, y, z);
    assert(i == (y + s * z) * s + x) by (nonlinear_arith)
        requires
            i == x + s * (y + s * z);
    lemma_fundamental_div_mod_converse(i, s, y + s * z, x);
    assert(y + s * z == z * s + y) by (nonlinear_arith);
    lemma_fundamental_div_mod_converse(y + s * z, s, z, y);
    assert(i == z * (s * s) + (x + s * y)) by (nonlinear_arith)
        requires
            i == x + s * (y + s * z);
    assert(0 <= x + s * y < s * s) by (nonlinear_arith)
        requires
            0 < s,
            0 <= x < s,
            0 <= y < s;
    assert(0 < s * s) by (nonlinear_arith)
        requires
            0 < s;
    lemma_fundamental_div_mod_converse(i, s * s, z, x + s * y);
}

/// Decoding is a full inverse: every linear index below the cell count names
/// an in-chunk cell, and re-linearizing its coordinates gives the index back.
pub proof fn lemma_coords_cell_index(side: u32, i: int)
    requires
        0 < side,
        0 <= i < cell_count(side),
    ensures
        in_chunk(side, index_x(side, i), index_y(side, i), index_z(side, i)),
        cell_index(side, index_x(side, i), index_y(side, i), index_z(side, i)) == i,
{
    let s: int = side as int;
    let x: int = i % s;
    let q: int = i / s;
    let y: int = q % s;
    let zq: int = q / s;
    vstd::arithmetic::div_mod::lemma_fundamental_div_mod(i, s);
    vstd::arithmetic::div_mod::lemma_mod_bound(i, s);
    vstd::arithmetic::div_mod::lemma_fundamental_div_mod(q, s);
    vstd::arithmetic::div_mod::lemma_mod_bound(q, s);
    assert(0 <= zq) by (nonlinear_arith)
        requires
            0 < s,
            0 <= q,
            q == s * zq + y,
            0 <= y < s;
    assert(zq < s) by (nonlinear_arith)
        requires
            0 < s,
            i < s * s * s,
            i == s * q + x,
            0 <= x,
            q == s * zq + y,
            0 <= y;
    assert(i == zq * (s * s) + (x + s * y)) by (nonlinear_arith)
        requires
            i == s * q + x,
            q == s * zq + y;
    assert(0 <= x + s * y < s * s) by (nonlinear_arith)
        requires
            0 < s,
            0 <= x < s,
            0 <= y < s;
    assert(0 < s * s) by (nonlinear_arith)
        requires
            0 < s;
    lemma_fundamental_div_mod_converse(i, s * s, zq, x + s * y);
    assert(cell_index(side, x, y, zq) == i) by (nonlinear_arith)
        requires
            i == zq * (s * s) + (x + s * y),
            cell_index(side, x, y, zq) == x + s * (y + s * zq);
}

/// Number of cells in a chunk, as an executable value.
pub fn num_cells(side: u32) -> (n: u32)
    requires
        valid_side(side),
    ensures
        n == cell_count(side),
{
    proof {
        assert((side as int) * (side as int) <= 128 * 128
            && (side as int) * (side as int) * (side as int) <= 128 * 128 * 128)
            by (nonlinear_arith)
            requires
                0 < side <= 128;
    }
    side * side * side
}

/// Linear index of an in-chunk cell.
pub fn linear_index(side: u32, x: u32, y: u32, z: u32) -> (i: u32)
    requires
        valid_side(side),
        in_chunk(side, x as int, y as int, z as int),
    ensures
        i == cell_index(side, x as int, y as int, z as int),
        i < cell_count(side),
{
    proof {
        lemma_cell_index_bounds(side, x as int, y as int, z as int);
        assert((side as int) * (z as int) <= 128 * 127
            && (y as int) + (side as int) * (z as int) <= 127 + 128 * 127
            && (side as int) * ((y as int) + (side as int) * (z as int))
                <= 128 * (127 + 128 * 127)
            && cell_count(side) <= 128 * 128 * 128) by (nonlinear_arith)
            requires
                0 < side <= 128,
                y < side,
                z < side;
    }
    x + side * (y + side * z)
}

/// Coordinates of the cell a linear index names.
pub fn cell_coords(side: u32, i: u32) -> (c: (u32, u32, u32))
    requires
        valid_side(side),
        i < cell_count(side),
    ensures
        c.0 == index_x(side, i as int),
        c.1 == index_y(side, i as int),
        c.2 == index_z(side, i as int),
        in_chunk(side, c.0 as int, c.1 as int, c.2 as int),
        cell_index(side, c.0 as int, c.1 as int, c.2 as int) == i,
{
    proof {
        lemma_coords_cell_index(side, i as int);
        assert((side as int) * (side as int) <= 128 * 128) by (nonlinear_arith)
            requires
                0 < side <= 128;
    }
    let x: u32 = i % side;
    let y: u32 = (i / side) % side;
    let z: u32 = i / (side * side);
    (x, y, z)
}

/// Workgroups dispatched along each axis: the grid covers the chunk exactly,
/// with no remainder.
pub fn workgroup_count(side: u32) -> (n: u32)
    requires
        valid_side(side),
    ensures
        n * WORKGROUP_EXTENT == side,
{
    side / WORKGROUP_EXTENT
}

} // verus!
