//! A cursor over the cells of one column of the board.

use crate::board::NUM_CELLS;
use crate::board::NUM_COLS;
use crate::board::NUM_ROWS;
use crate::cell::Cell;
use vstd::prelude::*;

verus! {

broadcast use vstd::array::group_array_axioms;

pub struct ColIter {
    pub col_idx: usize,
    pub count: usize,
    pub cells: [Cell; NUM_CELLS],
}

impl ColIter {
    /// The column lies on the board and the cursor has not run past its
    /// end.
    pub open spec fn wf(self) -> bool {
        self.col_idx < NUM_COLS && self.count <= NUM_ROWS
    }

    pub fn new(cells: &[Cell; NUM_CELLS], col_idx: usize) -> (r: ColIter)
        requires
            col_idx < NUM_COLS,
        ensures
            r.wf(),
            r.col_idx == col_idx,
            r.count == 0,
            r.cells@ == cells@,
    {
        ColIter { col_idx, count: 0, cells: *cells }
    }

    /// Yields the next cell of the column, top to bottom.
    pub fn next(&mut self) -> (r: Option<Cell>)
        requires
            old(self).wf(),
        ensures
            final(self).wf(),
            final(self).cells == old(self).cells,
            final(self).col_idx == old(self).col_idx,
            old(self).count < NUM_ROWS ==> final(self).count == old(self).count + 1 && r == Some(
                old(self).cells@[old(self).count * NUM_ROWS + old(self).col_idx],
            ),
            old(self).count >= NUM_ROWS ==> final(self).count == old(self).count && r
                == None::<Cell>,
    {
        if self.count < NUM_ROWS {
            let row_idx = self.count;
            let result = self.cells[row_idx * NUM_ROWS + self.col_idx];
            self.count += 1;
            Some(result)
        } else {
            None
        }
    }
}

} // verus!
