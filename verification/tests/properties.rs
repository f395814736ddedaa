use tic_tac_toe::board::Board;
use tic_tac_toe::board::NUM_CELLS;
use tic_tac_toe::board::ParseBoardError;
use tic_tac_toe::board_has_win::board_has_win;
use tic_tac_toe::cell::Cell;
use tic_tac_toe::cell_id::CellId;
use tic_tac_toe::cells_are_valid::CellsImpossibleError;
use tic_tac_toe::cells_are_valid::cells_are_valid;
use tic_tac_toe::cells_are_valid::count_xs_and_os;
use tic_tac_toe::game::Game;
use tic_tac_toe::lines::lines;
use tic_tac_toe::player::Player;

#[test]
fn empty_board_has_no_winner_and_is_valid() {
    let board = "         ".parse::<Board>().unwrap();
    assert_eq!(board_has_win(&board), Cell::Unmarked);
    assert_eq!(cells_are_valid(&board.cells), Ok(()));
}

#[test]
fn winner_and_validation_are_idempotent() {
    for text in ["XOXXOXOXO", "XXXOO    ", "X O X O X", "         "] {
        let board = text.parse::<Board>().unwrap();
        assert_eq!(board_has_win(&board), board_has_win(&board));
        assert_eq!(cells_are_valid(&board.cells), cells_are_valid(&board.cells));
    }
}

#[test]
fn line_enumeration_is_complete() {
    let table = lines();
    assert_eq!(table.len(), 8);
    for line in &table {
        assert_eq!(line.len(), 3);
    }
    let mut rows = "XOXOXOXXO".parse::<Board>().unwrap().rows();
    let mut row_count = 0;
    while rows.next().is_some() {
        row_count += 1;
    }
    assert_eq!(row_count, 3);
    let mut columns = "XOXOXOXXO".parse::<Board>().unwrap().columns();
    let mut column_count = 0;
    while columns.next().is_some() {
        column_count += 1;
    }
    assert_eq!(column_count, 3);
    let mut diagonals = "XOXOXOXXO".parse::<Board>().unwrap().diagonals();
    let mut diagonal_count = 0;
    while diagonals.next().is_some() {
        diagonal_count += 1;
    }
    assert_eq!(diagonal_count, 2);
}

#[test]
fn line_table_lists_rows_columns_then_diagonals() {
    let table = lines();
    assert_eq!(table[0], vec![0, 1, 2]);
    assert_eq!(table[1], vec![3, 4, 5]);
    assert_eq!(table[2], vec![6, 7, 8]);
    assert_eq!(table[3], vec![0, 3, 6]);
    assert_eq!(table[4], vec![1, 4, 7]);
    assert_eq!(table[5], vec![2, 5, 8]);
    assert_eq!(table[6], vec![0, 4, 8]);
    assert_eq!(table[7], vec![2, 4, 6]);
}

#[test]
fn winning_row_board_is_accepted_with_winner() {
    let board = "XXXOO    ".parse::<Board>().unwrap();
    assert_eq!(board_has_win(&board), Cell::X);
    assert_eq!(cells_are_valid(&board.cells), Ok(()));
}

#[test]
fn two_extra_xs_are_rejected() {
    let board = "XX       ".parse::<Board>();
    assert!(matches!(
        board,
        Err(ParseBoardError::ImpossibleCells(CellsImpossibleError::TooManyXs))
    ));
}

#[test]
fn surplus_o_is_rejected() {
    let board = "  O      ".parse::<Board>();
    assert!(matches!(
        board,
        Err(ParseBoardError::ImpossibleCells(CellsImpossibleError::TooManyOs))
    ));
}

#[test]
fn play_after_win_is_rejected() {
    let mut cells = [Cell::Unmarked; NUM_CELLS];
    for (i, ch) in "XXXOOOX  ".chars().enumerate() {
        cells[i] = match ch {
            'X' => Cell::X,
            'O' => Cell::O,
            _ => Cell::Unmarked,
        };
    }
    assert_eq!(
        cells_are_valid(&cells),
        Err(CellsImpossibleError::XPlayAfterOWin)
    );
}

#[test]
fn full_draw_board_is_valid_with_no_winner() {
    let board = "XOXXOOOXX".parse::<Board>().unwrap();
    assert_eq!(board_has_win(&board), Cell::Unmarked);
    assert_eq!(cells_are_valid(&board.cells), Ok(()));
}

#[test]
fn mark_counts_are_exact() {
    let board = "XOXXOOOXX".parse::<Board>().unwrap();
    assert_eq!(count_xs_and_os(&board.cells), (5, 4));
    let board = "         ".parse::<Board>().unwrap();
    assert_eq!(count_xs_and_os(&board.cells), (0, 0));
}

#[test]
fn game_updates_place_marks_and_alternate() {
    let mut game = Game::new();
    assert_eq!(game.player, Player::X);
    let cell_id = "b2".parse::<CellId>().unwrap();
    game.update(cell_id);
    assert_eq!(game.board.cells[4], Cell::X);
    assert_eq!(game.player, Player::O);
    let cell_id = "a1".parse::<CellId>().unwrap();
    game.update(cell_id);
    assert_eq!(game.board.cells[0], Cell::O);
    assert_eq!(game.player, Player::X);
    assert_eq!(game.board.to_string(), "O   X    ");
}

#[test]
fn board_text_round_trip() {
    for text in ["XXXOO    ", "X O X O X", "         ", "XOXXOOOXX"] {
        let board = text.parse::<Board>().unwrap();
        assert_eq!(board.to_string(), text);
    }
}
