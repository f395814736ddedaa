//! Per-move rules: a mark may only go into an unmarked cell, and the turn
//! passes to the other player after each move.

use crate::board::NUM_CELLS;
use crate::cell::Cell;
use crate::cell_id::CellId;
use crate::player::Player;
use vstd::prelude::*;

verus! {

broadcast use vstd::array::group_array_axioms;

/// The chosen cell already holds a mark.
#[derive(Debug)]
pub struct CellIsMarked;

/// The player whose turn follows `p`'s.
pub open spec fn opponent(p: Player) -> Player {
    match p {
        Player::X => Player::O,
        Player::O => Player::X,
    }
}

/// Accepts a move only when the addressed cell is still unmarked.
pub fn check_cell(cells: &[Cell; NUM_CELLS], cell_id: CellId) -> (r: Result<(), CellIsMarked>)
    requires
        cell_id.wf(),
    ensures
        r is Ok <==> cells@[cell_id.row * crate::board::NUM_COLS + cell_id.column]
            == Cell::Unmarked,
{
    let cell_idx = cell_id.to_idx();
    match cells[cell_idx] {
        Cell::Unmarked => Ok(()),
        _ => Err(CellIsMarked),
    }
}

/// The player whose turn follows.
pub fn next_player(player: Player) -> (r: Player)
    ensures
        r == opponent(player),
{
    match player {
        Player::X => Player::O,
        Player::O => Player::X,
    }
}

} // verus!
