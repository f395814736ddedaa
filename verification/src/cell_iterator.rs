//! A cursor over the cells of one line of the board. The constructor takes
//! an index function mapping a line number and a step count to a flat cell
//! position, so rows, columns and diagonals all share this one cursor.

use crate::board::NUM_CELLS;
use crate::board::NUM_COLS;
use crate::cell::Cell;
use vstd::prelude::*;

verus! {

broadcast use vstd::array::group_array_axioms;

/// Yields, one at a time, the cells of the line whose flat positions were
/// computed when the cursor was built.
pub struct CellIterator {
    pub count: usize,
    pub cells: [Cell; NUM_CELLS],
    pub positions: [usize; NUM_COLS],
}

impl CellIterator {
    /// Every stored position points into the board, and the cursor has not
    /// run past the end of the line.
    pub open spec fn wf(self) -> bool {
        &&& self.count <= NUM_COLS
        &&& forall|k: int| 0 <= k < NUM_COLS ==> #[trigger] self.positions@[k] < NUM_CELLS
    }

    /// The stored flat positions, as a sequence.
    pub open spec fn pos_seq(self) -> Seq<int> {
        seq![
            self.positions@[0] as int,
            self.positions@[1] as int,
            self.positions@[2] as int,
        ]
    }

    /// The cells of the line, in the order this cursor yields them.
    pub open spec fn line(self) -> Seq<Cell> {
        seq![
            self.cells@[self.pos_seq()[0]],
            self.cells@[self.pos_seq()[1]],
            self.cells@[self.pos_seq()[2]],
        ]
    }

    /// Builds the cursor by applying the index function to each step count
    /// up front.
    pub fn new<F: Fn(usize, usize) -> usize>(
        cells: &[Cell; NUM_CELLS],
        dimension_index: usize,
        next_cell: F,
    ) -> (r: CellIterator)
        requires
            forall|k: usize| k < NUM_COLS ==> call_requires(next_cell, (dimension_index, k)),
            forall|k: usize, p: usize|
                k < NUM_COLS && call_ensures(next_cell, (dimension_index, k), p) ==> p < NUM_CELLS,
        ensures
            r.wf(),
            r.count == 0,
            r.cells@ == cells@,
            forall|k: int|
                0 <= k < NUM_COLS ==> call_ensures(
                    next_cell,
                    (dimension_index, k as usize),
                    #[trigger] r.positions@[k],
                ),
    {
        let p0 = next_cell(dimension_index, 0);
        let p1 = next_cell(dimension_index, 1);
        let p2 = next_cell(dimension_index, 2);
        CellIterator { count: 0, cells: *cells, positions: [p0, p1, p2] }
    }

    /// Yields the next cell of the line, or `None` once all of them have
    /// been seen.
    pub fn next(&mut self) -> (r: Option<Cell>)
        requires
            old(self).wf(),
        ensures
            final(self).wf(),
            final(self).cells == old(self).cells,
            final(self).positions == old(self).positions,
            old(self).count < NUM_COLS ==> final(self).count == old(self).count + 1 && r == Some(
                old(self).line()[old(self).count as int],
            ),
            old(self).count >= NUM_COLS ==> final(self).count == old(self).count && r
                == None::<Cell>,
    {
        if self.count >= NUM_COLS {
            None
        } else {
            let idx = self.positions[self.count];
            let result = self.cells[idx];
            self.count += 1;
            Some(result)
        }
    }
}

} // verus!
