//! Yields one `CellIterator` per diagonal of the board: first the primary
//! diagonal (top-left to bottom-right), then the anti-diagonal.

use crate::board::Board;
use crate::board::NUM_CELLS;
use crate::board::NUM_ROWS;
use crate::cell_iterator::CellIterator;
use crate::cell::Cell;
use crate::lines::line_positions;
use vstd::prelude::*;

verus! {

pub struct DiagonalIterator {
    pub diagonal_idx: usize,
    pub cells: [Cell; NUM_CELLS],
}

impl DiagonalIterator {
    pub fn new(cells: &[Cell; NUM_CELLS]) -> (r: DiagonalIterator)
        ensures
            r.diagonal_idx == 0,
            r.cells@ == cells@,
    {
        DiagonalIterator { diagonal_idx: 0, cells: *cells }
    }

    /// Yields the cursor over the next diagonal; the primary diagonal
    /// covers the flat positions `line_positions(6)`, the anti-diagonal
    /// `line_positions(7)`.
    pub fn next(&mut self) -> (r: Option<CellIterator>)
        ensures
            final(self).cells == old(self).cells,
            old(self).diagonal_idx < 2 ==> final(self).diagonal_idx == old(self).diagonal_idx + 1
                && (r matches Some(it) && it.wf() && it.count == 0 && it.cells@ == old(self).cells@
                && it.pos_seq() == line_positions(6 + old(self).diagonal_idx as int)),
            old(self).diagonal_idx >= 2 ==> final(self).diagonal_idx == old(self).diagonal_idx && r
                == None::<CellIterator>,
    {
        if self.diagonal_idx == 0 {
            let increasing_diagonal = |_diagonal_idx: usize, count: usize| -> (p: usize)
                requires
                    count < NUM_ROWS,
                ensures
                    p == count + NUM_ROWS * count,
                { count + NUM_ROWS * count };
            let diagonal_iterator = CellIterator::new(
                &self.cells,
                self.diagonal_idx,
                increasing_diagonal,
            );
            proof {
                assert(diagonal_iterator.pos_seq() =~= line_positions(6));
            }
            self.diagonal_idx += 1;
            Some(diagonal_iterator)
        } else if self.diagonal_idx == 1 {
            let decreasing_diagonal = |_diagonal_idx: usize, count: usize| -> (p: usize)
                requires
                    count < NUM_ROWS,
                ensures
                    p == (NUM_ROWS - count - 1) + NUM_ROWS * count,
                { (NUM_ROWS - count - 1) + NUM_ROWS * count };
            let diagonal_iterator = CellIterator::new(
                &self.cells,
                self.diagonal_idx,
                decreasing_diagonal,
            );
            proof {
                assert(diagonal_iterator.pos_seq() =~= line_positions(7));
            }
            self.diagonal_idx += 1;
            Some(diagonal_iterator)
        } else {
            None
        }
    }
}

impl Board {
    /// The two diagonals of the board, the primary one first.
    pub fn diagonals(&self) -> (r: DiagonalIterator)
        ensures
            r.diagonal_idx == 0,
            r.cells@ == self@,
    {
        DiagonalIterator::new(&self.cells)
    }
}

} // verus!
