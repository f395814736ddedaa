//! The line enumerator: the ordered family of lines (rows, then columns,
//! then the two diagonals) whose cells are checked for a uniform winning
//! mark.

use crate::board::NUM_CELLS;
use crate::board::NUM_COLS;
use crate::board::NUM_ROWS;
use vstd::prelude::*;

verus! {

/// How many lines the board has: one per row, one per column, and the two
/// main diagonals.
pub const NUM_LINES: usize = NUM_ROWS + NUM_COLS + 2;

/// The cell positions of line `k`, in the fixed enumeration order: rows
/// first (top to bottom), then columns (left to right), then the primary
/// diagonal, then the anti-diagonal.
pub open spec fn line_positions(k: int) -> Seq<int> {
    if 0 <= k < 3 {
        seq![3 * k, 3 * k + 1, 3 * k + 2]
    } else if 3 <= k < 6 {
        seq![k - 3, k, k + 3]
    } else if k == 6 {
        seq![0, 4, 8]
    } else {
        seq![2, 4, 6]
    }
}

/// Every line holds exactly `NUM_COLS` positions, each within the board.
pub proof fn lemma_line_positions_in_bounds(k: int)
    requires
        0 <= k < NUM_LINES,
    ensures
        line_positions(k).len() == NUM_COLS,
        forall|m: int| 0 <= m < NUM_COLS ==> 0 <= #[trigger] line_positions(k)[m] < NUM_CELLS,
{
}

/// Line enumeration is complete: there are exactly eight lines, the first
/// three run along the rows, the next three down the columns, and the last
/// two along the primary and the anti-diagonal.
pub proof fn lemma_line_enumeration()
    ensures
        NUM_LINES == 8,
        forall|k: int, m: int|
            0 <= k < NUM_ROWS && 0 <= m < NUM_COLS ==> #[trigger] line_positions(k)[m] == k
                * NUM_COLS + m,
        forall|k: int, m: int|
            0 <= k < NUM_COLS && 0 <= m < NUM_ROWS ==> #[trigger] line_positions(NUM_ROWS + k)[m]
                == k + m * NUM_COLS,
        forall|m: int| 0 <= m < NUM_COLS ==> #[trigger] line_positions(6)[m] == m * (NUM_COLS + 1),
        forall|m: int|
            0 <= m < NUM_COLS ==> #[trigger] line_positions(7)[m] == (NUM_COLS - 1) + m * (NUM_COLS
                - 1),
{
}

/// Materialises the enumeration: the position table of all eight lines, in
/// order.
pub fn lines() -> (r: Vec<Vec<usize>>)
    ensures
        r@.len() == NUM_LINES,
        forall|k: int| 0 <= k < NUM_LINES ==> (#[trigger] r@[k])@.len() == NUM_COLS,
        forall|k: int, m: int|
            0 <= k < NUM_LINES && 0 <= m < NUM_COLS ==> #[trigger] r@[k]@[m] == line_positions(
                k,
            )[m],
{
    let mut table: Vec<Vec<usize>> = Vec::new();
    let mut k: usize = 0;
    while k < NUM_ROWS
        invariant
            k <= NUM_ROWS,
            table@.len() == k,
            forall|j: int| 0 <= j < k ==> (#[trigger] table@[j])@.len() == NUM_COLS,
            forall|j: int, m: int|
                0 <= j < k && 0 <= m < NUM_COLS ==> #[trigger] table@[j]@[m] == line_positions(
                    j,
                )[m],
        decreases NUM_ROWS - k,
    {
        let row: Vec<usize> = vec![k * NUM_COLS, k * NUM_COLS + 1, k * NUM_COLS + 2];
        table.push(row);
        k += 1;
    }
    let mut j: usize = 0;
    while j < NUM_COLS
        invariant
            j <= NUM_COLS,
            table@.len() == NUM_ROWS + j,
            forall|i: int| 0 <= i < NUM_ROWS + j ==> (#[trigger] table@[i])@.len() == NUM_COLS,
            forall|i: int, m: int|
                0 <= i < NUM_ROWS + j && 0 <= m < NUM_COLS ==> #[trigger] table@[i]@[m]
                    == line_positions(i)[m],
        decreases NUM_COLS - j,
    {
        let col: Vec<usize> = vec![j, j + NUM_COLS, j + 2 * NUM_COLS];
        table.push(col);
        j += 1;
    }
    let diagonal: Vec<usize> = vec![0, NUM_COLS + 1, 2 * (NUM_COLS + 1)];
    table.push(diagonal);
    let anti_diagonal: Vec<usize> = vec![NUM_COLS - 1, 2 * (NUM_COLS - 1), 3 * (NUM_COLS - 1)];
    table.push(anti_diagonal);
    table
}

} // verus!
