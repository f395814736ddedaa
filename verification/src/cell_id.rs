//! A cell address typed by the player: a column letter followed by a row
//! digit, such as `b2`.

use crate::board::NUM_COLS;
use crate::board::NUM_ROWS;
use vstd::prelude::*;
use vstd::string::StrSliceExecFns;

verus! {

/// A parsed cell address, as zero-based row and column numbers.
#[derive(Debug, Clone)]
pub struct CellId {
    pub row: usize,
    pub column: usize,
}

/// How parsing a cell address can fail.
#[derive(Debug)]
pub enum CellIdError {
    Empty,
    UnparseableInput,
    OutOfBounds,
}

/// Whether a character is a row digit, `'1'` up to the number of rows.
pub open spec fn is_row_char(c: char) -> bool {
    ('1' as u32) <= (c as u32) && (c as u32) < ('1' as u32) + (NUM_ROWS as u32)
}

/// Whether a character is a column letter, `'a'` up to the number of
/// columns.
pub open spec fn is_column_char(c: char) -> bool {
    ('a' as u32) <= (c as u32) && (c as u32) < ('a' as u32) + (NUM_COLS as u32)
}

impl CellId {
    /// Whether the address lies on the board.
    pub open spec fn wf(self) -> bool {
        self.row < NUM_ROWS && self.column < NUM_COLS
    }

    /// The flat cell position of this address.
    pub fn to_idx(&self) -> (r: usize)
        requires
            self.wf(),
        ensures
            r == self.row * NUM_COLS + self.column,
            r < crate::board::NUM_CELLS,
    {
        self.row * NUM_COLS + self.column
    }

    /// Parses an address of the form column letter then row digit, and
    /// rejects addresses off the board.
    pub fn from_text(input: &str) -> (r: Result<CellId, CellIdError>)
        ensures
            input@.len() == 0 ==> r matches Err(CellIdError::Empty),
            input@.len() == 2 && is_column_char(input@[0]) && is_row_char(input@[1]) ==> (
            r matches Ok(id) && id.wf() && id.row == input@[1] as u32 - '1' as u32 && id.column
                == input@[0] as u32 - 'a' as u32),
            input@.len() == 2 && !(is_column_char(input@[0]) && is_row_char(input@[1]))
                ==> r matches Err(CellIdError::OutOfBounds),
            input@.len() != 0 && input@.len() != 2 ==> r matches Err(CellIdError::UnparseableInput),
    {
        let n = input.unicode_len();
        if n == 0 {
            Err(CellIdError::Empty)
        } else if n == 2 {
            let column_char = input.get_char(0);
            let row_char = input.get_char(1);
            let row_ok = (row_char as u32) >= ('1' as u32) && (row_char as u32) < ('1' as u32)
                + (NUM_ROWS as u32);
            let column_ok = (column_char as u32) >= ('a' as u32) && (column_char as u32) < ('a'
                as u32) + (NUM_COLS as u32);
            if row_ok && column_ok {
                let row = row_char as usize - '1' as usize;
                let column = column_char as usize - 'a' as usize;
                Ok(CellId { row, column })
            } else {
                Err(CellIdError::OutOfBounds)
            }
        } else {
            Err(CellIdError::UnparseableInput)
        }
    }
}

impl core::str::FromStr for CellId {
    type Err = CellIdError;

    fn from_str(s: &str) -> Result<CellId, CellIdError> {
        CellId::from_text(s)
    }
}

} // verus!
