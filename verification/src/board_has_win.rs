//! Win detection: whether some line of the board holds a uniform,
//! non-empty mark, and which mark wins first in enumeration order.

use crate::board::Board;
use crate::board::NUM_COLS;
use crate::board::NUM_ROWS;
use crate::cell::Cell;
use crate::cell_iterator::CellIterator;
use crate::lines::NUM_LINES;
use crate::lines::line_positions;
use vstd::prelude::*;

verus! {

/// The verdict of one line: the uniform mark held by all of its cells, or
/// `Unmarked` when the cells differ. A line of all-empty cells yields
/// `Unmarked` as well, which callers read as "no win".
pub open spec fn line_verdict(s: Seq<Cell>, l: Seq<int>) -> Cell {
    if s[l[1]] == s[l[0]] && s[l[2]] == s[l[0]] {
        s[l[0]]
    } else {
        Cell::Unmarked
    }
}

/// Whether some line of the board is uniformly marked `c`.
pub open spec fn has_win(s: Seq<Cell>, c: Cell) -> bool {
    exists|k: int|
        0 <= k < NUM_LINES && line_verdict(s, #[trigger] line_positions(k)) == c
}

/// The first non-`Unmarked` line verdict at line `k` or later, or
/// `Unmarked` when no line from `k` on is decided.
pub open spec fn first_winner_from(s: Seq<Cell>, k: int) -> Cell
    decreases NUM_LINES - k,
{
    if k < 0 || k >= NUM_LINES {
        Cell::Unmarked
    } else if line_verdict(s, line_positions(k)) != Cell::Unmarked {
        line_verdict(s, line_positions(k))
    } else {
        first_winner_from(s, k + 1)
    }
}

/// The winner of the board: the first non-`Unmarked` line verdict in
/// enumeration order, or `Unmarked` when no line is decided.
pub open spec fn board_winner(s: Seq<Cell>) -> Cell {
    first_winner_from(s, 0)
}

proof fn lemma_first_winner_from_found(s: Seq<Cell>, i: int, k: int)
    requires
        0 <= i <= k < NUM_LINES,
        forall|j: int|
            i <= j < k ==> line_verdict(s, #[trigger] line_positions(j)) == Cell::Unmarked,
        line_verdict(s, line_positions(k)) != Cell::Unmarked,
    ensures
        first_winner_from(s, i) == line_verdict(s, line_positions(k)),
    decreases k - i,
{
    if i < k {
        lemma_first_winner_from_found(s, i + 1, k);
    }
}

/// When every line before `k` is undecided and line `k` is decided, the
/// board winner is the verdict of line `k`.
pub proof fn lemma_winner_found(s: Seq<Cell>, k: int)
    requires
        0 <= k < NUM_LINES,
        forall|j: int|
            0 <= j < k ==> line_verdict(s, #[trigger] line_positions(j)) == Cell::Unmarked,
        line_verdict(s, line_positions(k)) != Cell::Unmarked,
    ensures
        board_winner(s) == line_verdict(s, line_positions(k)),
        has_win(s, line_verdict(s, line_positions(k))),
{
    lemma_first_winner_from_found(s, 0, k);
}

proof fn lemma_first_winner_from_none(s: Seq<Cell>, i: int)
    requires
        forall|j: int|
            0 <= j < NUM_LINES ==> line_verdict(s, #[trigger] line_positions(j)) == Cell::Unmarked,
    ensures
        first_winner_from(s, i) == Cell::Unmarked,
    decreases NUM_LINES - i,
{
    if 0 <= i < NUM_LINES {
        lemma_first_winner_from_none(s, i + 1);
    }
}

/// When every line is undecided, the board has no winner.
pub proof fn lemma_no_winner(s: Seq<Cell>)
    requires
        forall|j: int|
            0 <= j < NUM_LINES ==> line_verdict(s, #[trigger] line_positions(j)) == Cell::Unmarked,
    ensures
        board_winner(s) == Cell::Unmarked,
{
    lemma_first_winner_from_none(s, 0);
}

/// A board with no marks at all has no winner.
pub proof fn lemma_empty_board_has_no_winner(s: Seq<Cell>)
    requires
        s.len() == crate::board::NUM_CELLS,
        forall|i: int| 0 <= i < s.len() ==> s[i] == Cell::Unmarked,
    ensures
        board_winner(s) == Cell::Unmarked,
{
    assert forall|j: int| 0 <= j < NUM_LINES implies line_verdict(
        s,
        #[trigger] line_positions(j),
    ) == Cell::Unmarked by {
        crate::lines::lemma_line_positions_in_bounds(j);
    }
    lemma_no_winner(s);
}

/// Decides the verdict of one line: its first cell if every later cell
/// holds the same mark, `Unmarked` otherwise.
#[verifier::loop_isolation(false)]
pub fn iter_has_win(iter: CellIterator) -> (r: Cell)
    requires
        iter.wf(),
        iter.count == 0,
    ensures
        r == line_verdict(iter.cells@, iter.pos_seq()),
{
    let ghost orig = iter;
    let mut it = iter;
    let first = it.next().unwrap();
    while it.count < NUM_COLS
        invariant
            it.wf(),
            1 <= it.count <= NUM_COLS,
            it.cells == orig.cells,
            it.positions == orig.positions,
            first == orig.line()[0],
            forall|j: int| 1 <= j < it.count ==> orig.line()[j] == first,
        decreases NUM_COLS - it.count,
    {
        let j = it.count;
        let cell = it.next().unwrap();
        if cell != first {
            proof {
                assert(orig.line()[j as int] != orig.line()[0]);
                assert(line_verdict(orig.cells@, orig.pos_seq()) == Cell::Unmarked);
            }
            return Cell::Unmarked;
        }
    }
    first
}

/// The winner of the board: scans rows, then columns, then the two
/// diagonals, and reports the first decided line's mark.
///
/// The result is a function of the board's cells alone, so two calls on
/// the same board always agree.
#[verifier::loop_isolation(false)]
pub fn board_has_win(board: &Board) -> (r: Cell)
    ensures
        r == board_winner(board@),
{
    let s = Ghost(board@);
    let mut rows = board.rows();
    let mut k: usize = 0;
    while k < NUM_ROWS
        invariant
            k <= NUM_ROWS,
            rows.count == k,
            rows.cells@ == s@,
            forall|j: int|
                0 <= j < k ==> line_verdict(s@, #[trigger] line_positions(j)) == Cell::Unmarked,
        decreases NUM_ROWS - k,
    {
        let row = rows.next().unwrap();
        proof {
            assert(row.cells@ == s@ && row.pos_seq() == line_positions(k as int));
        }
        let verdict = iter_has_win(row);
        if verdict != Cell::Unmarked {
            proof {
                assert(verdict == line_verdict(s@, line_positions(k as int)));
                lemma_winner_found(s@, k as int);
            }
            return verdict;
        }
        k += 1;
    }
    let mut columns = board.columns();
    let mut k: usize = 0;
    while k < NUM_COLS
        invariant
            k <= NUM_COLS,
            columns.count == k,
            columns.cells@ == s@,
            forall|j: int|
                0 <= j < NUM_ROWS + k ==> line_verdict(s@, #[trigger] line_positions(j))
                    == Cell::Unmarked,
        decreases NUM_COLS - k,
    {
        let column = columns.next().unwrap();
        proof {
            assert(column.cells@ == s@ && column.pos_seq() == line_positions(NUM_ROWS + k as int));
        }
        let verdict = iter_has_win(column);
        if verdict != Cell::Unmarked {
            proof {
                assert(verdict == line_verdict(s@, line_positions(NUM_ROWS + k as int)));
                lemma_winner_found(s@, NUM_ROWS + k as int);
            }
            return verdict;
        }
        k += 1;
    }
    let mut diagonals = board.diagonals();
    let mut k: usize = 0;
    while k < 2
        invariant
            k <= 2,
            diagonals.diagonal_idx == k,
            diagonals.cells@ == s@,
            forall|j: int|
                0 <= j < 6 + k ==> line_verdict(s@, #[trigger] line_positions(j))
                    == Cell::Unmarked,
        decreases 2 - k,
    {
        let diagonal = diagonals.next().unwrap();
        proof {
            assert(diagonal.cells@ == s@ && diagonal.pos_seq() == line_positions(6 + k as int));
        }
        let verdict = iter_has_win(diagonal);
        if verdict != Cell::Unmarked {
            proof {
                assert(verdict == line_verdict(s@, line_positions(6 + k as int)));
                lemma_winner_found(s@, 6 + k as int);
            }
            return verdict;
        }
        k += 1;
    }
    proof {
        lemma_no_winner(s@);
    }
    Cell::Unmarked
}

} // verus!
