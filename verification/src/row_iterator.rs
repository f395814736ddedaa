//! Yields one `CellIterator` per row of the board, top to bottom.

use crate::board::Board;
use crate::board::NUM_CELLS;
use crate::board::NUM_COLS;
use crate::board::NUM_ROWS;
use crate::cell_iterator::CellIterator;
use crate::cell::Cell;
use crate::lines::line_positions;
use vstd::prelude::*;

verus! {

pub struct RowIterator {
    pub count: usize,
    pub cells: [Cell; NUM_CELLS],
}

impl RowIterator {
    pub fn new(cells: &[Cell; NUM_CELLS]) -> (r: RowIterator)
        ensures
            r.count == 0,
            r.cells@ == cells@,
    {
        RowIterator { count: 0, cells: *cells }
    }

    /// Yields the cursor over the next row; row `i` covers the flat
    /// positions `line_positions(i)`.
    pub fn next(&mut self) -> (r: Option<CellIterator>)
        ensures
            final(self).cells == old(self).cells,
            old(self).count < NUM_ROWS ==> final(self).count == old(self).count + 1 && (
            r matches Some(it) && it.wf() && it.count == 0 && it.cells@ == old(self).cells@
                && it.pos_seq() == line_positions(old(self).count as int)),
            old(self).count >= NUM_ROWS ==> final(self).count == old(self).count && r
                == None::<CellIterator>,
    {
        if self.count >= NUM_ROWS {
            None
        } else {
            let next_row_cell_idx = |row_idx: usize, count: usize| -> (p: usize)
                requires
                    row_idx < NUM_ROWS,
                    count < NUM_COLS,
                ensures
                    p == row_idx * NUM_COLS + count,
                { row_idx * NUM_COLS + count };
            let row_iterator = CellIterator::new(&self.cells, self.count, next_row_cell_idx);
            proof {
                assert(row_iterator.pos_seq() =~= line_positions(self.count as int));
            }
            self.count += 1;
            Some(row_iterator)
        }
    }
}

impl Board {
    /// The rows of the board, top to bottom.
    pub fn rows(&self) -> (r: RowIterator)
        ensures
            r.count == 0,
            r.cells@ == self@,
    {
        RowIterator::new(&self.cells)
    }
}

} // verus!
