use tic_tac_toe::board::Board;
use tic_tac_toe::board_iterator::BoardIter;
use tic_tac_toe::board_iterator::next_col_cell_idx;
use tic_tac_toe::board_iterator::next_row_cell_idx;
use tic_tac_toe::cell::Cell;

#[test]
fn board_iterator_test_board_iter() {
    let board = "XOXOXOXXO".to_string().parse::<Board>().unwrap();

    let mut board = BoardIter::new(&board.cells, 0, next_row_cell_idx);
    assert!(matches!(board.next().unwrap(), Cell::X));
    assert!(matches!(board.next().unwrap(), Cell::O));
    assert!(matches!(board.next().unwrap(), Cell::X));
    assert!(matches!(board.next(), None));

    let mut board = BoardIter::new(&board.cells, 1, next_row_cell_idx);
    assert!(matches!(board.next().unwrap(), Cell::O));
    assert!(matches!(board.next().unwrap(), Cell::X));
    assert!(matches!(board.next().unwrap(), Cell::O));
    assert!(matches!(board.next(), None));

    let mut board = BoardIter::new(&board.cells, 2, next_row_cell_idx);
    assert!(matches!(board.next().unwrap(), Cell::X));
    assert!(matches!(board.next().unwrap(), Cell::X));
    assert!(matches!(board.next().unwrap(), Cell::O));
    assert!(matches!(board.next(), None));

    let mut board = BoardIter::new(&board.cells, 0, next_col_cell_idx);
    assert!(matches!(board.next().unwrap(), Cell::X));
    assert!(matches!(board.next().unwrap(), Cell::O));
    assert!(matches!(board.next().unwrap(), Cell::X));
    assert!(matches!(board.next(), None));

    let mut board = BoardIter::new(&board.cells, 1, next_col_cell_idx);
    assert!(matches!(board.next().unwrap(), Cell::O));
    assert!(matches!(board.next().unwrap(), Cell::X));
    assert!(matches!(board.next().unwrap(), Cell::X));
    assert!(matches!(board.next(), None));

    let mut board = BoardIter::new(&board.cells, 2, next_col_cell_idx);
    assert!(matches!(board.next().unwrap(), Cell::X));
    assert!(matches!(board.next().unwrap(), Cell::O));
    assert!(matches!(board.next().unwrap(), Cell::O));
    assert!(matches!(board.next(), None));
}
