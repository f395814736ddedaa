use tic_tac_toe::board::NUM_CELLS;
use tic_tac_toe::cell::Cell;
use tic_tac_toe::row_iter::RowIter;

fn make_cells(cells_str: &str) -> [Cell; NUM_CELLS] {
    assert_eq!(cells_str.len(), NUM_CELLS);
    let mut cells = [Cell::Unmarked; NUM_CELLS];
    for (cell_idx, cell_char) in cells_str.chars().enumerate() {
        cells[cell_idx] = match cell_char {
            'X' => Cell::X,
            'O' => Cell::O,
            ' ' => Cell::Unmarked,
            _ => panic!("oops"),
        };
    }
    cells
}

#[test]
fn test_row_iter() {
    let cells = make_cells("XOXOXOOXO");
    let mut row = RowIter::new(&cells, 0);
    assert!(matches!(row.next().unwrap(), Cell::X));
    assert!(matches!(row.next().unwrap(), Cell::O));
    assert!(matches!(row.next().unwrap(), Cell::X));
    assert!(matches!(row.next(), None));
}
