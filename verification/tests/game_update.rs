use tic_tac_toe::board::NUM_CELLS;
use tic_tac_toe::cell::Cell;
use tic_tac_toe::cell_id::CellId;
use tic_tac_toe::game_update::CellIsMarked;
use tic_tac_toe::game_update::check_cell;

#[test]
fn test_check_cell() {
    let mut cells = [Cell::Unmarked; NUM_CELLS];

    let cell_id = "a1".to_string().parse::<CellId>().unwrap();
    let result = check_cell(&cells, cell_id);
    assert!(matches!(result, Ok(_)));

    let cell_id = "a1".to_string().parse::<CellId>().unwrap();
    cells[cell_id.to_idx()] = Cell::X;

    let result = check_cell(&cells, cell_id);
    assert!(matches!(result, Err(CellIsMarked)));
}
