use tic_tac_toe::cell_id::CellId;
use tic_tac_toe::cell_id::CellIdError;

#[test]
fn cell_id_test_bad_input() {
    let empty_input = "";

    let result = empty_input.parse::<CellId>();
    assert!(matches!(result, Err(CellIdError::Empty)));

    let garbage_input = "sssss";
    let result = garbage_input.parse::<CellId>();
    assert!(matches!(result, Err(CellIdError::UnparseableInput)));

    let out_of_bounds_inputs = ["a0", "a4", "d1", "d4"];
    for input in out_of_bounds_inputs {
        let result = input.parse::<CellId>();
        assert!(matches!(result, Err(CellIdError::OutOfBounds)));
    }
}

#[test]
fn cell_id_test_good_inputs() {
    let input = "a1";
    let result: CellId = input.parse().unwrap();
    assert_eq!(result.row, 0);
    assert_eq!(result.column, 0);
    let input = "a3";
    let result: CellId = input.parse().unwrap();
    assert_eq!(result.row, 2);
    assert_eq!(result.column, 0);
    let input = "b2";
    let result: CellId = input.parse().unwrap();
    assert_eq!(result.row, 1);
    assert_eq!(result.column, 1);
    let input = "c1";
    let result: CellId = input.parse().unwrap();
    assert_eq!(result.row, 0);
    assert_eq!(result.column, 2);
}

#[test]
fn test_to_idx() {
    let cell_idx = "a1".to_string().parse::<CellId>().unwrap().to_idx();
    assert_eq!(cell_idx, 0);
    let cell_idx = "a3".to_string().parse::<CellId>().unwrap().to_idx();
    assert_eq!(cell_idx, 6);
    let cell_idx = "b2".to_string().parse::<CellId>().unwrap().to_idx();
    assert_eq!(cell_idx, 4);
    let cell_idx = "c1".to_string().parse::<CellId>().unwrap().to_idx();
    assert_eq!(cell_idx, 2);
    let cell_idx = "c3".to_string().parse::<CellId>().unwrap().to_idx();
    assert_eq!(cell_idx, 8);
}
