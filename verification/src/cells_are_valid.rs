//! The reachability validator: whether a board snapshot could have arisen
//! from legal alternating play starting with player `X`.

use crate::board::NUM_CELLS;
use crate::board_has_win::has_win;
use crate::board_has_win::iter_has_win;
use crate::board_has_win::line_verdict;
use crate::cell::Cell;
use crate::column_iterator::ColumnIterator;
use crate::diagonal_iterator::DiagonalIterator;
use crate::lines::NUM_LINES;
use crate::lines::line_positions;
use crate::row_iterator::RowIterator;
use vstd::prelude::*;

verus! {

/// Why a board cannot be reached by legal alternating play.
#[derive(Debug, PartialEq, Eq, Structural)]
pub enum CellsImpossibleError {
    /// `X` holds more than one mark over `O`, though `X` moves first and
    /// the players alternate.
    TooManyXs,
    /// `O` holds more marks than `X`, though `O` moves second.
    TooManyOs,
    /// `O` has a winning line, yet `X` holds one mark more than `O`: `X`
    /// played on after `O` had already won.
    XPlayAfterOWin,
    /// `X` has a winning line, yet the counts are level: `O` played on
    /// after `X` had already won.
    OPlayAfterXWin,
}

/// How many cells of `s` hold the mark `c`.
pub open spec fn count_in(s: Seq<Cell>, c: Cell) -> nat
    decreases s.len(),
{
    if s.len() == 0 {
        0
    } else {
        count_in(s.drop_last(), c) + if s.last() == c {
            1nat
        } else {
            0nat
        }
    }
}

/// A mark's count never exceeds the number of cells.
pub proof fn lemma_count_in_le_len(s: Seq<Cell>, c: Cell)
    ensures
        count_in(s, c) <= s.len(),
    decreases s.len(),
{
    if s.len() > 0 {
        lemma_count_in_le_len(s.drop_last(), c);
    }
}

/// A mark held by no cell has count zero.
pub proof fn lemma_count_in_absent(s: Seq<Cell>, c: Cell)
    requires
        forall|i: int| 0 <= i < s.len() ==> s[i] != c,
    ensures
        count_in(s, c) == 0,
    decreases s.len(),
{
    if s.len() > 0 {
        lemma_count_in_absent(s.drop_last(), c);
    }
}

/// The verdict on a board's reachability, checked in precedence order:
/// first the mark counts, then play going on after a win.
pub open spec fn validate_spec(s: Seq<Cell>) -> Result<(), CellsImpossibleError> {
    let num_xs = count_in(s, Cell::X) as int;
    let num_os = count_in(s, Cell::O) as int;
    if num_xs > num_os + 1 {
        Err(CellsImpossibleError::TooManyXs)
    } else if num_os > num_xs {
        Err(CellsImpossibleError::TooManyOs)
    } else if has_win(s, Cell::X) && num_os == num_xs {
        Err(CellsImpossibleError::OPlayAfterXWin)
    } else if has_win(s, Cell::O) && num_xs == num_os + 1 {
        Err(CellsImpossibleError::XPlayAfterOWin)
    } else {
        Ok(())
    }
}

/// Counts the marks of each player over the whole board.
#[verifier::loop_isolation(false)]
pub fn count_xs_and_os(cells: &[Cell; NUM_CELLS]) -> (r: (usize, usize))
    ensures
        r.0 == count_in(cells@, Cell::X),
        r.1 == count_in(cells@, Cell::O),
{
    let mut num_xs: usize = 0;
    let mut num_os: usize = 0;
    let mut i: usize = 0;
    while i < NUM_CELLS
        invariant
            i <= NUM_CELLS,
            num_xs == count_in(cells@.take(i as int), Cell::X),
            num_os == count_in(cells@.take(i as int), Cell::O),
            num_xs <= i,
            num_os <= i,
        decreases NUM_CELLS - i,
    {
        proof {
            assert(cells@.take(i + 1).drop_last() =~= cells@.take(i as int));
            assert(cells@.take(i + 1).last() == cells@[i as int]);
        }
        match cells[i] {
            Cell::X => num_xs += 1,
            Cell::O => num_os += 1,
            Cell::Unmarked => (),
        }
        i += 1;
    }
    proof {
        assert(cells@.take(NUM_CELLS as int) =~= cells@);
    }
    (num_xs, num_os)
}

/// Decides whether the board could have been reached by legal alternating
/// play, reporting the first violated rule otherwise.
///
/// The verdict is a function of the board's cells alone, so two calls on
/// the same board always agree.
#[verifier::loop_isolation(false)]
#[verifier::rlimit(50)]
pub fn cells_are_valid(cells: &[Cell; NUM_CELLS]) -> (r: Result<(), CellsImpossibleError>)
    ensures
        r == validate_spec(cells@),
{
    let s = Ghost(cells@);
    let (num_xs, num_os) = count_xs_and_os(cells);
    proof {
        lemma_count_in_le_len(s@, Cell::X);
        lemma_count_in_le_len(s@, Cell::O);
    }
    if num_xs > num_os + 1 {
        return Err(CellsImpossibleError::TooManyXs);
    }
    if num_os > num_xs {
        return Err(CellsImpossibleError::TooManyOs);
    }
    let mut x_win = false;
    let mut o_win = false;
    let mut rows = RowIterator::new(cells);
    let mut k: usize = 0;
    while k < 3
        invariant
            k <= 3,
            rows.count == k,
            rows.cells@ == s@,
            x_win <==> exists|j: int|
                0 <= j < k && line_verdict(s@, #[trigger] line_positions(j)) == Cell::X,
            o_win <==> exists|j: int|
                0 <= j < k && line_verdict(s@, #[trigger] line_positions(j)) == Cell::O,
        decreases 3 - k,
    {
        let track = rows.next().unwrap();
        proof {
            assert(track.cells@ == s@ && track.pos_seq() == line_positions(k as int));
        }
        let verdict = iter_has_win(track);
        if verdict == Cell::X {
            x_win = true;
        }
        if verdict == Cell::O {
            o_win = true;
        }
        k += 1;
    }
    let mut columns = ColumnIterator::new(cells);
    let mut k: usize = 0;
    while k < 3
        invariant
            k <= 3,
            columns.count == k,
            columns.cells@ == s@,
            x_win <==> exists|j: int|
                0 <= j < 3 + k && line_verdict(s@, #[trigger] line_positions(j)) == Cell::X,
            o_win <==> exists|j: int|
                0 <= j < 3 + k && line_verdict(s@, #[trigger] line_positions(j)) == Cell::O,
        decreases 3 - k,
    {
        let track = columns.next().unwrap();
        proof {
            assert(track.cells@ == s@ && track.pos_seq() == line_positions(3 + k as int));
        }
        let verdict = iter_has_win(track);
        if verdict == Cell::X {
            x_win = true;
        }
        if verdict == Cell::O {
            o_win = true;
        }
        k += 1;
    }
    let mut diagonals = DiagonalIterator::new(cells);
    let mut k: usize = 0;
    while k < 2
        invariant
            k <= 2,
            diagonals.diagonal_idx == k,
            diagonals.cells@ == s@,
            x_win <==> exists|j: int|
                0 <= j < 6 + k && line_verdict(s@, #[trigger] line_positions(j)) == Cell::X,
            o_win <==> exists|j: int|
                0 <= j < 6 + k && line_verdict(s@, #[trigger] line_positions(j)) == Cell::O,
        decreases 2 - k,
    {
        let track = diagonals.next().unwrap();
        proof {
            assert(track.cells@ == s@ && track.pos_seq() == line_positions(6 + k as int));
        }
        let verdict = iter_has_win(track);
        if verdict == Cell::X {
            x_win = true;
        }
        if verdict == Cell::O {
            o_win = true;
        }
        k += 1;
    }
    proof {
        assert(x_win == has_win(s@, Cell::X));
        assert(o_win == has_win(s@, Cell::O));
    }
    if x_win && num_os == num_xs {
        return Err(CellsImpossibleError::OPlayAfterXWin);
    }
    if o_win && num_xs == num_os + 1 {
        return Err(CellsImpossibleError::XPlayAfterOWin);
    }
    Ok(())
}

/// A board with no marks at all is reachable: it is the starting position.
pub proof fn lemma_empty_board_is_valid(s: Seq<Cell>)
    requires
        s.len() == NUM_CELLS,
        forall|i: int| 0 <= i < s.len() ==> s[i] == Cell::Unmarked,
    ensures
        validate_spec(s) == Ok::<(), CellsImpossibleError>(()),
{
    lemma_count_in_absent(s, Cell::X);
    lemma_count_in_absent(s, Cell::O);
    assert forall|j: int| 0 <= j < NUM_LINES implies line_verdict(
        s,
        #[trigger] line_positions(j),
    ) == Cell::Unmarked by {
        crate::lines::lemma_line_positions_in_bounds(j);
    }
}

/// A board where `X` leads by two or more marks is never reachable, and
/// the surplus of `X` is the rule reported first.
pub proof fn lemma_too_many_xs(s: Seq<Cell>)
    requires
        count_in(s, Cell::X) >= count_in(s, Cell::O) + 2,
    ensures
        validate_spec(s) == Err::<(), CellsImpossibleError>(CellsImpossibleError::TooManyXs),
{
}

/// A board where `O` holds more marks than `X` is never reachable, and
/// the surplus of `O` is the rule reported first.
pub proof fn lemma_too_many_os(s: Seq<Cell>)
    requires
        count_in(s, Cell::O) > count_in(s, Cell::X),
    ensures
        validate_spec(s) == Err::<(), CellsImpossibleError>(CellsImpossibleError::TooManyOs),
{
}

} // verus!
