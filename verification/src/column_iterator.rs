//! Yields one `CellIterator` per column of the board, left to right.

use crate::board::Board;
use crate::board::NUM_CELLS;
use crate::board::NUM_COLS;
use crate::board::NUM_ROWS;
use crate::cell_iterator::CellIterator;
use crate::cell::Cell;
use crate::lines::line_positions;
use vstd::prelude::*;

verus! {

pub struct ColumnIterator {
    pub count: usize,
    pub cells: [Cell; NUM_CELLS],
}

impl ColumnIterator {
    pub fn new(cells: &[Cell; NUM_CELLS]) -> (r: ColumnIterator)
        ensures
            r.count == 0,
            r.cells@ == cells@,
    {
        ColumnIterator { count: 0, cells: *cells }
    }

    /// Yields the cursor over the next column; column `j` covers the flat
    /// positions `line_positions(NUM_ROWS + j)`.
    pub fn next(&mut self) -> (r: Option<CellIterator>)
        ensures
            final(self).cells == old(self).cells,
            old(self).count < NUM_COLS ==> final(self).count == old(self).count + 1 && (
            r matches Some(it) && it.wf() && it.count == 0 && it.cells@ == old(self).cells@
                && it.pos_seq() == line_positions(NUM_ROWS + old(self).count as int)),
            old(self).count >= NUM_COLS ==> final(self).count == old(self).count && r
                == None::<CellIterator>,
    {
        if self.count >= NUM_COLS {
            None
        } else {
            let next_column_cell_idx = |column_idx: usize, count: usize| -> (p: usize)
                requires
                    column_idx < NUM_COLS,
                    count < NUM_ROWS,
                ensures
                    p == column_idx + NUM_ROWS * count,
                { column_idx + NUM_ROWS * count };
            let column_iterator = CellIterator::new(&self.cells, self.count, next_column_cell_idx);
            proof {
                assert(column_iterator.pos_seq() =~= line_positions(NUM_ROWS + self.count as int));
            }
            self.count += 1;
            Some(column_iterator)
        }
    }
}

impl Board {
    /// The columns of the board, left to right.
    pub fn columns(&self) -> (r: ColumnIterator)
        ensures
            r.count == 0,
            r.cells@ == self@,
    {
        ColumnIterator::new(&self.cells)
    }
}

} // verus!
