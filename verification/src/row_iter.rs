//! A cursor over the cells of one row of the board.

use crate::board::NUM_CELLS;
use crate::board::NUM_COLS;
use crate::board::NUM_ROWS;
use crate::cell::Cell;
use vstd::prelude::*;

verus! {

broadcast use vstd::array::group_array_axioms;

pub struct RowIter {
    pub row_idx: usize,
    pub count: usize,
    pub cells: [Cell; NUM_CELLS],
}

impl RowIter {
    /// The row lies on the board and the cursor has not run past its end.
    pub open spec fn wf(self) -> bool {
        self.row_idx < NUM_ROWS && self.count <= NUM_COLS
    }

    pub fn new(cells: &[Cell; NUM_CELLS], row_idx: usize) -> (r: RowIter)
        requires
            row_idx < NUM_ROWS,
        ensures
            r.wf(),
            r.row_idx == row_idx,
            r.count == 0,
            r.cells@ == cells@,
    {
        RowIter { row_idx, count: 0, cells: *cells }
    }

    /// Yields the next cell of the row, left to right.
    pub fn next(&mut self) -> (r: Option<Cell>)
        requires
            old(self).wf(),
        ensures
            final(self).wf(),
            final(self).cells == old(self).cells,
            final(self).row_idx == old(self).row_idx,
            old(self).count < NUM_COLS ==> final(self).count == old(self).count + 1 && r == Some(
                old(self).cells@[old(self).row_idx * NUM_COLS + old(self).count],
            ),
            old(self).count >= NUM_COLS ==> final(self).count == old(self).count && r
                == None::<Cell>,
    {
        let start_idx = self.row_idx * NUM_COLS;
        if self.count < NUM_COLS {
            let result = self.cells[start_idx + self.count];
            self.count += 1;
            Some(result)
        } else {
            None
        }
    }
}

} // verus!
