//! The dense voxel field: a flat, fixed-capacity occupancy grid with one
//! 32-bit word per cell, fully overwritten each frame by a deterministic
//! procedural terrain function of the cell coordinates.

use vstd::prelude::*;

use crate::chunk::{
    cell_count, cell_coords, cell_index, in_chunk, index_x, index_y, index_z, num_cells,
    valid_side, linear_index,
};

verus! {

/// Whether an occupancy word marks its cell as occupied.
pub open spec fn occupied_word(w: u32) -> bool {
    w != 0
}

/// The deterministic procedural terrain: a cell is solid exactly when its
/// height does not exceed the terrain height at its column, a fixed function
/// of the horizontal coordinates alone. Solid cells carry material 1.
pub open spec fn proc_value(side: u32, x: int, y: int, z: int) -> u32 {
    if y <= (x * 7 + z * 13) % (side as int) {
        1u32
    } else {
        0u32
    }
}

/// A field fully populated by the procedural generation stage.
pub open spec fn generated(v: Seq<u32>, side: u32) -> bool {
    &&& v.len() == cell_count(side)
    &&& forall|i: int|
        0 <= i < v.len() ==> v[i] == proc_value(
            side,
            index_x(side, i),
            index_y(side, i),
            index_z(side, i),
        )
}

/// The dense voxel field of one chunk: `side` cubed occupancy words, indexed
/// by linearized cell coordinates.
pub struct DenseVoxelField {
    side: u32,
    cells: Vec<u32>,
}

impl View for DenseVoxelField {
    type V = Seq<u32>;

    closed spec fn view(&self) -> Seq<u32> {
        self.cells@
    }
}

impl DenseVoxelField {
    /// The chunk side length this field was allocated for.
    pub closed spec fn spec_side(&self) -> u32 {
        self.side
    }

    /// Well-formed: an accepted side length, and exactly one word per cell.
    pub open spec fn wf(&self) -> bool {
        &&& valid_side(self.spec_side())
        &&& self@.len() == cell_count(self.spec_side())
    }

    /// The side length of the chunk.
    #[verifier::when_used_as_spec(spec_side)]
    pub fn side(&self) -> (s: u32)
        ensures
            s == self.spec_side(),
    {
        self.side
    }

    /// Allocate the field once, at startup, with every cell unoccupied.
    pub fn new(side: u32) -> (f: DenseVoxelField)
        requires
            valid_side(side),
        ensures
            f.wf(),
            f.spec_side() == side,
            forall|i: int| 0 <= i < f@.len() ==> f@[i] == 0u32,
    {
        let n = num_cells(side);
        let mut cells: Vec<u32> = Vec::new();
        let mut k: u32 = 0;
        while k < n
            invariant
                k <= n,
                cells@.len() == k,
                forall|i: int| 0 <= i < k ==> cells@[i] == 0u32,
            decreases n - k,
        {
            cells.push(0);
            k = k + 1;
        }
        DenseVoxelField { side, cells }
    }

    /// Build a field from explicit occupancy words, one per cell.
    pub fn from_words(side: u32, words: Vec<u32>) -> (f: DenseVoxelField)
        requires
            valid_side(side),
            words@.len() == cell_count(side),
        ensures
            f.wf(),
            f.spec_side() == side,
            f@ == words@,
    {
        DenseVoxelField { side, cells: words }
    }

    /// The occupancy word of the cell at the given coordinates.
    pub fn get_cell(&self, x: u32, y: u32, z: u32) -> (w: u32)
        requires
            self.wf(),
            in_chunk(self.spec_side(), x as int, y as int, z as int),
        ensures
            w == self@[cell_index(self.spec_side(), x as int, y as int, z as int)],
    {
        let i = linear_index(self.side, x, y, z);
        self.cells[i as usize]
    }

    /// Overwrite the occupancy word of one cell.
    pub fn set_cell(&mut self, x: u32, y: u32, z: u32, w: u32)
        requires
            old(self).wf(),
            in_chunk(old(self).spec_side(), x as int, y as int, z as int),
        ensures
            final(self).wf(),
            final(self).spec_side() == old(self).spec_side(),
            final(self)@ == old(self)@.update(
                cell_index(old(self).spec_side(), x as int, y as int, z as int),
                w,
            ),
    {
        let i = linear_index(self.side, x, y, z);
        self.cells.set(i as usize, w);
    }

    /// The procedural occupancy value of one cell, as the generation stage
    /// computes it, one invocation per cell with no cross-cell dependency.
    pub fn procedural_value(side: u32, x: u32, y: u32, z: u32) -> (w: u32)
        requires
            valid_side(side),
            in_chunk(side, x as int, y as int, z as int),
        ensures
            w == proc_value(side, x as int, y as int, z as int),
    {
        let h: u32 = (x * 7 + z * 13) % side;
        if y <= h {
            1
        } else {
            0
        }
    }

    /// The generation dispatch: overwrite every cell of the field with the
    /// procedural value of its coordinates.
    pub fn generate(&mut self)
        requires
            old(self).wf(),
        ensures
            final(self).wf(),
            final(self).spec_side() == old(self).spec_side(),
            generated(final(self)@, old(self).spec_side()),
    {
        let side = self.side;
        let n = num_cells(side);
        let mut i: u32 = 0;
        while i < n
            invariant
                self.wf(),
                self.spec_side() == side,
                valid_side(side),
                i <= n,
                n == cell_count(side),
                forall|j: int|
                    0 <= j < i ==> self@[j] == proc_value(
                        side,
                        index_x(side, j),
                        index_y(side, j),
                        index_z(side, j),
                    ),
            decreases n - i,
        {
            let (x, y, z) = cell_coords(side, i);
            let w = Self::procedural_value(side, x, y, z);
            let ghost prev = self@;
            self.set_cell(x, y, z, w);
            proof {
                assert(cell_index(side, x as int, y as int, z as int) == i);
                assert(forall|j: int| 0 <= j < i ==> self@[j] == prev[j]);
            }
            i = i + 1;
        }
    }
}

} // verus!
