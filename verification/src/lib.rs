//! A small two-player grid game engine for a 3 x 3 board.
//!
//! The heart of the crate is the board validity and win-detection logic:
//! enumerating the lines of the grid (rows, columns and the two diagonals),
//! deciding whether a line holds a uniform winning mark, and deciding whether
//! a board snapshot is reachable by legal alternating play starting with `X`.

pub mod board;
pub mod board_has_win;
pub mod board_iterator;
pub mod cell;
pub mod cell_id;
pub mod cell_iterator;
pub mod cells_are_valid;
pub mod col_iter;
pub mod column_iterator;
pub mod diagonal_iterator;
pub mod game;
pub mod game_update;
pub mod lines;
pub mod player;
pub mod row_iter;
pub mod row_iterator;
pub mod user_input;
