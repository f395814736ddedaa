//! A cursor over one dimension of the board that is parameterised by an
//! index function: the function maps the dimension's number and a step
//! count to a flat cell position.

use crate::board::NUM_CELLS;
use crate::board::NUM_COLS;
use crate::board::NUM_ROWS;
use crate::cell::Cell;
use vstd::prelude::*;

verus! {

broadcast use vstd::array::group_array_axioms;

/// Computes the flat position of the `count`-th cell of row `row_idx`.
pub fn next_row_cell_idx(row_idx: usize, count: usize) -> (r: usize)
    requires
        row_idx < NUM_ROWS,
        count < NUM_COLS,
    ensures
        r == row_idx * NUM_COLS + count,
{
    row_idx * NUM_COLS + count
}

/// Computes the flat position of the `count`-th cell of column `col_idx`.
pub fn next_col_cell_idx(col_idx: usize, count: usize) -> (r: usize)
    requires
        col_idx < NUM_COLS,
        count < NUM_ROWS,
    ensures
        r == NUM_ROWS * count + col_idx,
{
    NUM_ROWS * count + col_idx
}

/// Yields, one at a time, the cells that the index function picks for the
/// chosen dimension.
pub struct BoardIter<NextCell> {
    pub count: usize,
    pub cells: [Cell; NUM_CELLS],
    pub dimension_index: usize,
    pub next_cell: NextCell,
}

impl<NextCell> BoardIter<NextCell> where NextCell: Fn(usize, usize) -> usize {
    /// The index function accepts every step of this dimension and always
    /// answers with a position on the board.
    pub open spec fn wf(self) -> bool {
        &&& forall|k: usize|
            k < NUM_COLS ==> call_requires(self.next_cell, (self.dimension_index, k))
        &&& forall|k: usize, p: usize|
            k < NUM_COLS && call_ensures(self.next_cell, (self.dimension_index, k), p) ==> p
                < NUM_CELLS
    }

    pub fn new(cells: &[Cell; NUM_CELLS], dimension_index: usize, next_cell: NextCell) -> (r:
        BoardIter<NextCell>)
        requires
            forall|k: usize| k < NUM_COLS ==> call_requires(next_cell, (dimension_index, k)),
            forall|k: usize, p: usize|
                k < NUM_COLS && call_ensures(next_cell, (dimension_index, k), p) ==> p < NUM_CELLS,
        ensures
            r.wf(),
            r.count == 0,
            r.cells@ == cells@,
            r.dimension_index == dimension_index,
            r.next_cell == next_cell,
    {
        BoardIter { count: 0, cells: *cells, dimension_index, next_cell }
    }

    /// Yields the cell at the position the index function picks for the
    /// current step, or `None` once all steps are done.
    pub fn next(&mut self) -> (r: Option<Cell>)
        requires
            old(self).wf(),
            old(self).count <= NUM_COLS,
        ensures
            final(self).wf(),
            final(self).cells == old(self).cells,
            final(self).dimension_index == old(self).dimension_index,
            final(self).next_cell == old(self).next_cell,
            old(self).count < NUM_COLS ==> final(self).count == old(self).count + 1 && (
            r matches Some(c) && exists|p: usize|
                p < NUM_CELLS && #[trigger] call_ensures(
                    old(self).next_cell,
                    (old(self).dimension_index, old(self).count),
                    p,
                ) && c == old(self).cells@[p as int]),
            old(self).count >= NUM_COLS ==> final(self).count == old(self).count && r
                == None::<Cell>,
    {
        if self.count >= NUM_COLS {
            None
        } else {
            let idx = (self.next_cell)(self.dimension_index, self.count);
            let result = self.cells[idx];
            self.count += 1;
            Some(result)
        }
    }
}

} // verus!
