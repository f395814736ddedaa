//! A cell address typed by the player, in the same shape that `CellId`
//! parses: a column letter followed by a row digit, such as `b2`.

use crate::board::NUM_COLS;
use crate::board::NUM_ROWS;
use vstd::prelude::*;
use vstd::string::StrSliceExecFns;

verus! {

/// A parsed cell address, as zero-based row and column numbers.
#[derive(Debug)]
pub struct UserInput {
    pub row: usize,
    pub column: usize,
}

/// How parsing a cell address can fail.
#[derive(Debug)]
pub enum UserInputError {
    Empty,
    UnparseableInput,
    OutOfBounds,
}

/// Whether a character is a row digit, `'1'` up to the number of rows.
pub open spec fn input_row_char_ok(c: char) -> bool {
    ('1' as u32) <= (c as u32) && (c as u32) < ('1' as u32) + (NUM_ROWS as u32)
}

/// Whether a character is a column letter, `'a'` up to the number of
/// columns.
pub open spec fn input_column_char_ok(c: char) -> bool {
    ('a' as u32) <= (c as u32) && (c as u32) < ('a' as u32) + (NUM_COLS as u32)
}

impl UserInput {
    /// Whether the address lies on the board.
    pub open spec fn wf(self) -> bool {
        self.row < NUM_ROWS && self.column < NUM_COLS
    }

    /// Parses an address of the form column letter then row digit, and
    /// rejects addresses off the board.
    pub fn from_text(input: &str) -> (r: Result<UserInput, UserInputError>)
        ensures
            input@.len() == 0 ==> r matches Err(UserInputError::Empty),
            input@.len() == 2 && input_column_char_ok(input@[0]) && input_row_char_ok(input@[1]) ==> (
            r matches Ok(id) && id.wf() && id.row == input@[1] as u32 - '1' as u32 && id.column
                == input@[0] as u32 - 'a' as u32),
            input@.len() == 2 && !(input_column_char_ok(input@[0]) && input_row_char_ok(input@[1]))
                ==> r matches Err(UserInputError::OutOfBounds),
            input@.len() != 0 && input@.len() != 2 ==> r matches Err(UserInputError::UnparseableInput),
    {
        let n = input.unicode_len();
        if n == 0 {
            Err(UserInputError::Empty)
        } else if n == 2 {
            let column_char = input.get_char(0);
            let row_char = input.get_char(1);
            let row_ok = (row_char as u32) >= ('1' as u32) && (row_char as u32) < ('1' as u32)
                + (NUM_ROWS as u32);
            let column_ok = (column_char as u32) >= ('a' as u32) && (column_char as u32) < ('a'
                as u32) + (NUM_COLS as u32);
            if row_ok && column_ok {
                let row = row_char as usize - '1' as usize;
                let column = column_char as usize - 'a' as usize;
                Ok(UserInput { row, column })
            } else {
                Err(UserInputError::OutOfBounds)
            }
        } else {
            Err(UserInputError::UnparseableInput)
        }
    }
}

impl core::str::FromStr for UserInput {
    type Err = UserInputError;

    fn from_str(s: &str) -> Result<UserInput, UserInputError> {
        UserInput::from_text(s)
    }
}

} // verus!
