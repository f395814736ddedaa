use tic_tac_toe::board::Board;
use tic_tac_toe::cell::Cell;
use tic_tac_toe::cell_iterator::CellIterator;

fn next_cell_idx(_: usize, count: usize) -> usize {
    count
}

#[test]
fn cell_iterator_test_board_iter() {
    let board = "XOXOXOXXO".to_string().parse::<Board>().unwrap();

    let mut board = CellIterator::new(&board.cells, 0, next_cell_idx);
    assert!(matches!(board.next().unwrap(), Cell::X));
    assert!(matches!(board.next().unwrap(), Cell::O));
    assert!(matches!(board.next().unwrap(), Cell::X));
    assert!(matches!(board.next(), None));
}
