//! The board: a fixed-size square grid of cells, stored as a flat array
//! indexed `row * NUM_COLS + col`.

use crate::cell::Cell;
use crate::cell::cell_of_char;
use crate::cell::char_of_cell;
use crate::cell::is_cell_char;
use crate::cells_are_valid::CellsImpossibleError;
use crate::cells_are_valid::cells_are_valid;
use crate::cells_are_valid::validate_spec;
use vstd::prelude::*;
use vstd::string::StrSliceExecFns;
use vstd::string::StringExecFns;

verus! {

broadcast use vstd::array::group_array_axioms;

pub const NUM_COLS: usize = 3;

pub const NUM_ROWS: usize = 3;

pub const NUM_CELLS: usize = NUM_ROWS * NUM_COLS;

/// The playing grid. The flat array holds row-major cells, so the cell in
/// row `r` and column `c` sits at index `r * NUM_COLS + c`.
#[derive(Debug)]
pub struct Board {
    pub cells: [Cell; NUM_CELLS],
}

impl View for Board {
    type V = Seq<Cell>;

    open spec fn view(&self) -> Seq<Cell> {
        self.cells@
    }
}

/// The canonical textual form of a sequence of cells: one character per cell.
pub open spec fn text_of_cells(s: Seq<Cell>) -> Seq<char> {
    s.map_values(|c: Cell| char_of_cell(c))
}

/// The cells denoted by a sequence of characters, one per cell.
pub open spec fn cells_of_text(s: Seq<char>) -> Seq<Cell> {
    s.map_values(|ch: char| cell_of_char(ch))
}

/// The positions and values of the characters of `s` that denote no mark,
/// in text order.
pub open spec fn bad_chars(s: Seq<char>) -> Seq<(usize, char)>
    decreases s.len(),
{
    if s.len() == 0 {
        Seq::empty()
    } else if is_cell_char(s.last()) {
        bad_chars(s.drop_last())
    } else {
        bad_chars(s.drop_last()).push(((s.len() - 1) as usize, s.last()))
    }
}

/// How parsing a board's textual form can fail.
#[derive(Debug)]
pub enum ParseBoardError {
    Empty,
    BadLen,
    BadChars(Vec<(usize, char)>),
    ImpossibleCells(CellsImpossibleError),
}

impl Board {
    /// Parses a board from its row-major textual form: rejects text of the
    /// wrong length, collects every character that denotes no mark, and
    /// accepts only cell configurations reachable by legal play.
    #[verifier::loop_isolation(false)]
    pub fn from_text(board_str: &str) -> (r: Result<Board, ParseBoardError>)
        ensures
            board_str@.len() == 0 ==> r matches Err(ParseBoardError::Empty),
            board_str@.len() != 0 && board_str@.len() != NUM_CELLS ==> r matches Err(
                ParseBoardError::BadLen,
            ),
            board_str@.len() == NUM_CELLS && bad_chars(board_str@).len() != 0 ==> (r matches Err(
                ParseBoardError::BadChars(v),
            ) && v@ == bad_chars(board_str@)),
            board_str@.len() == NUM_CELLS && bad_chars(board_str@).len() == 0 ==> (match validate_spec(
                cells_of_text(board_str@),
            ) {
                Ok(_) => r matches Ok(b) && b@ == cells_of_text(board_str@),
                Err(e) => r matches Err(ParseBoardError::ImpossibleCells(e2)) && e2 == e,
            }),
    {
        let n = board_str.unicode_len();
        if n == 0 {
            return Err(ParseBoardError::Empty);
        }
        if n != NUM_CELLS {
            return Err(ParseBoardError::BadLen);
        }
        let mut cells: [Cell; NUM_CELLS] = [
            Cell::Unmarked,
            Cell::Unmarked,
            Cell::Unmarked,
            Cell::Unmarked,
            Cell::Unmarked,
            Cell::Unmarked,
            Cell::Unmarked,
            Cell::Unmarked,
            Cell::Unmarked,
        ];
        let mut char_errs: Vec<(usize, char)> = Vec::new();
        let mut i: usize = 0;
        while i < NUM_CELLS
            invariant
                i <= NUM_CELLS,
                char_errs@ == bad_chars(board_str@.take(i as int)),
                forall|j: int| 0 <= j < i ==> cells@[j] == cell_of_char(board_str@[j]),
                forall|j: int| i <= j < NUM_CELLS ==> cells@[j] == Cell::Unmarked,
            decreases NUM_CELLS - i,
        {
            let ch = board_str.get_char(i);
            if ch == 'X' {
                cells[i] = Cell::X;
            } else if ch == 'O' {
                cells[i] = Cell::O;
            } else if ch == ' ' {
                cells[i] = Cell::Unmarked;
            } else {
                char_errs.push((i, ch));
            }
            proof {
                assert(board_str@.take(i + 1).drop_last() =~= board_str@.take(i as int));
                assert(board_str@.take(i + 1).last() == board_str@[i as int]);
            }
            i += 1;
        }
        proof {
            assert(board_str@.take(NUM_CELLS as int) =~= board_str@);
        }
        if char_errs.len() > 0 {
            return Err(ParseBoardError::BadChars(char_errs));
        }
        proof {
            assert(cells@ =~= cells_of_text(board_str@));
        }
        match cells_are_valid(&cells) {
            Ok(_) => Ok(Board { cells }),
            Err(err) => Err(ParseBoardError::ImpossibleCells(err)),
        }
    }

    /// Writes the board as one character per cell, row-major.
    pub fn to_string(&self) -> (r: String)
        ensures
            r@ == text_of_cells(self@),
    {
        let mut out = String::new();
        let mut i: usize = 0;
        while i < NUM_CELLS
            invariant
                i <= NUM_CELLS,
                out@ =~= text_of_cells(self@.take(i as int)),
            decreases NUM_CELLS - i,
        {
            out.append(self.cells[i].as_text());
            proof {
                assert(self@.take(i + 1).map_values(|c: Cell| char_of_cell(c)) =~= self@.take(
                    i as int,
                ).map_values(|c: Cell| char_of_cell(c)) + seq![char_of_cell(self@[i as int])]);
            }
            i += 1;
        }
        proof {
            assert(self@.take(NUM_CELLS as int) =~= self@);
        }
        out
    }
}

impl core::str::FromStr for Board {
    type Err = ParseBoardError;

    fn from_str(s: &str) -> Result<Board, ParseBoardError> {
        Board::from_text(s)
    }
}

impl Default for Board {
    /// A fresh board has every cell unmarked.
    fn default() -> (r: Board)
        ensures
            forall|i: int| 0 <= i < NUM_CELLS ==> r@[i] == Cell::Unmarked,
    {
        Board {
            cells: [
                Cell::Unmarked,
                Cell::Unmarked,
                Cell::Unmarked,
                Cell::Unmarked,
                Cell::Unmarked,
                Cell::Unmarked,
                Cell::Unmarked,
                Cell::Unmarked,
                Cell::Unmarked,
            ],
        }
    }
}

} // verus!
