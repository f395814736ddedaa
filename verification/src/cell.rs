//! The tri-state mark held by one cell of the board, with its canonical
//! single-character textual form.

use vstd::prelude::*;
use vstd::string::StrSliceExecFns;
use vstd::string::StringExecFns;

verus! {

/// The state of one cell: unmarked, or owned by one of the two players.
#[derive(Copy, Clone, PartialEq, Eq, Structural, Debug)]
pub enum Cell {
    Unmarked,
    X,
    O,
}

/// The canonical character for a mark: `'X'`, `'O'`, or `' '` for an
/// unmarked cell.
pub open spec fn char_of_cell(c: Cell) -> char {
    match c {
        Cell::Unmarked => ' ',
        Cell::X => 'X',
        Cell::O => 'O',
    }
}

/// Whether a character denotes some mark.
pub open spec fn is_cell_char(ch: char) -> bool {
    ch == 'X' || ch == 'O' || ch == ' '
}

/// The mark denoted by a character; characters that denote no mark are
/// mapped to `Unmarked`, and callers reject them beforehand.
pub open spec fn cell_of_char(ch: char) -> Cell {
    if ch == 'X' {
        Cell::X
    } else if ch == 'O' {
        Cell::O
    } else {
        Cell::Unmarked
    }
}

/// How parsing a single cell can fail.
#[derive(Debug)]
pub enum ParseCellError {
    Empty,
    BadLen,
    BadChar(char),
}

impl Cell {
    /// Parses the one-character textual form of a mark.
    pub fn from_text(s: &str) -> (r: Result<Cell, ParseCellError>)
        ensures
            s@.len() == 0 ==> r matches Err(ParseCellError::Empty),
            s@.len() >= 2 ==> r matches Err(ParseCellError::BadLen),
            s@.len() == 1 && is_cell_char(s@[0]) ==> (r matches Ok(c) && c == cell_of_char(
                s@[0],
            )),
            s@.len() == 1 && !is_cell_char(s@[0]) ==> (r matches Err(ParseCellError::BadChar(ch))
                && ch == s@[0]),
    {
        let n = s.unicode_len();
        if n == 0 {
            Err(ParseCellError::Empty)
        } else if n >= 2 {
            Err(ParseCellError::BadLen)
        } else {
            let ch = s.get_char(0);
            if ch == 'X' {
                Ok(Cell::X)
            } else if ch == 'O' {
                Ok(Cell::O)
            } else if ch == ' ' {
                Ok(Cell::Unmarked)
            } else {
                Err(ParseCellError::BadChar(ch))
            }
        }
    }

    /// The one-character textual form of a mark, as a string slice.
    pub fn as_text(&self) -> (r: &'static str)
        ensures
            r@ == seq![char_of_cell(*self)],
    {
        match self {
            Cell::X => {
                let t = "X";
                proof {
                    reveal_strlit("X");
                    assert(t@ =~= seq![char_of_cell(Cell::X)]);
                }
                t
            },
            Cell::O => {
                let t = "O";
                proof {
                    reveal_strlit("O");
                    assert(t@ =~= seq![char_of_cell(Cell::O)]);
                }
                t
            },
            Cell::Unmarked => {
                let t = " ";
                proof {
                    reveal_strlit(" ");
                    assert(t@ =~= seq![char_of_cell(Cell::Unmarked)]);
                }
                t
            },
        }
    }

    /// The one-character textual form of a mark, as an owned string.
    pub fn to_string(&self) -> (r: String)
        ensures
            r@ == seq![char_of_cell(*self)],
    {
        String::from_str(self.as_text())
    }
}

impl core::str::FromStr for Cell {
    type Err = ParseCellError;

    fn from_str(s: &str) -> Result<Cell, ParseCellError> {
        Cell::from_text(s)
    }
}

impl Default for Cell {
    /// A fresh cell is unmarked.
    fn default() -> (r: Cell)
        ensures
            r == Cell::Unmarked,
    {
        Cell::Unmarked
    }
}

} // verus!
