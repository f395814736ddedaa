//! The two players, `X` and `O`. Player `X` always moves first.

use crate::cell::Cell;
use vstd::prelude::*;

verus! {

/// One of the two players.
#[derive(Copy, Clone, PartialEq, Eq, Structural, Debug)]
pub enum Player {
    X,
    O,
}

/// The mark that a player places.
pub open spec fn cell_of_player(p: Player) -> Cell {
    match p {
        Player::X => Cell::X,
        Player::O => Cell::O,
    }
}

impl Player {
    /// The mark that this player places.
    pub fn mark(&self) -> (c: Cell)
        ensures
            c == cell_of_player(*self),
    {
        match self {
            Player::X => Cell::X,
            Player::O => Cell::O,
        }
    }
}

} // verus!
