use tic_tac_toe::board::Board;
use tic_tac_toe::cell::Cell;

#[test]
fn test_row_iterator() {
    let board = "XOXOXOXXO".to_string().parse::<Board>().unwrap();

    let mut rows = board.rows();

    let mut row = rows.next().unwrap();
    assert!(matches!(row.next().unwrap(), Cell::X));
    assert!(matches!(row.next().unwrap(), Cell::O));
    assert!(matches!(row.next().unwrap(), Cell::X));
    assert!(matches!(row.next(), None));

    let mut row = rows.next().unwrap();
    assert!(matches!(row.next().unwrap(), Cell::O));
    assert!(matches!(row.next().unwrap(), Cell::X));
    assert!(matches!(row.next().unwrap(), Cell::O));
    assert!(matches!(row.next(), None));

    let mut row = rows.next().unwrap();
    assert!(matches!(row.next().unwrap(), Cell::X));
    assert!(matches!(row.next().unwrap(), Cell::X));
    assert!(matches!(row.next().unwrap(), Cell::O));
    assert!(matches!(row.next(), None));
}
