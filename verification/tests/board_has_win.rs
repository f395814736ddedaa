use tic_tac_toe::board::Board;
use tic_tac_toe::board_has_win::board_has_win;
use tic_tac_toe::cell::Cell;

#[test]
fn test_board_with_win() {
    let board = "XOOX OXX ".to_string().parse::<Board>().unwrap();
    assert!(matches!(board_has_win(&board), Cell::X));
    let board = "OOO XX X ".to_string().parse::<Board>().unwrap();
    assert!(matches!(board_has_win(&board), Cell::O));
}

#[test]
fn test_board_with_no_win() {
    let board = "         ".to_string().parse::<Board>().unwrap();
    let cell = board_has_win(&board);
    assert!(matches!(cell, Cell::Unmarked));
    let board = "XOXXOXOXO".to_string().parse::<Board>().unwrap();
    let cell = board_has_win(&board);
    assert!(matches!(cell, Cell::Unmarked));
}
