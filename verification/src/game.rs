//! The mutable game state: the board so far and whose turn it is. The
//! read-prompt-update loop around it lives with the caller; this module
//! holds the state transitions alone.

use crate::board::Board;
use crate::cell::Cell;
use crate::cell_id::CellId;
use crate::game_update::next_player;
use crate::game_update::opponent;
use crate::player::Player;
use crate::player::cell_of_player;
use vstd::prelude::*;

verus! {

broadcast use vstd::array::group_array_axioms;

/// A game in progress. `X` moves first.
#[derive(Debug)]
pub struct Game {
    pub board: Board,
    pub player: Player,
}

impl Game {
    /// A fresh game: an empty board, `X` to move.
    pub fn new() -> (r: Game)
        ensures
            r.player == Player::X,
            forall|i: int| 0 <= i < crate::board::NUM_CELLS ==> r.board@[i] == Cell::Unmarked,
    {
        Game { board: Board::default(), player: Player::X }
    }

    /// Applies the current player's mark at the addressed cell and passes
    /// the turn.
    pub fn update(&mut self, cell_id: CellId)
        requires
            cell_id.wf(),
        ensures
            final(self).board@ == old(self).board@.update(
                cell_id.row * crate::board::NUM_COLS + cell_id.column,
                cell_of_player(old(self).player),
            ),
            final(self).player == opponent(old(self).player),
    {
        let idx = cell_id.to_idx();
        self.board.cells[idx] = self.player.mark();
        self.player = next_player(self.player);
    }
}

} // verus!
