use tic_tac_toe::board::Board;
use tic_tac_toe::board::ParseBoardError;

#[test]
fn test_bad_board_to_from_string() {
    {
        let board = "".to_string().parse::<Board>();
        assert!(matches!(board, Err(ParseBoardError::Empty)));
    }
    {
        let board = "X OOOXXO".to_string().parse::<Board>();
        assert!(matches!(board, Err(ParseBoardError::BadLen)));
    }
    {
        let board = "XXOOOXXXXO".to_string().parse::<Board>();
        assert!(matches!(board, Err(ParseBoardError::BadLen)));
    }
    {
        let board = "XXOOODXXO".to_string().parse::<Board>();
        match board {
            Err(ParseBoardError::BadChars(a)) => match &a[..] {
                [(5, 'D')] => assert!(true),
                _ => assert!(false),
            },
            _ => assert!(false),
        }
    }
    {
        let board = "XXOOOXXOO".to_string().parse::<Board>();
        assert!(matches!(board, Err(ParseBoardError::ImpossibleCells(_))));
    }
}

#[test]
fn test_board_to_from_string() {
    let good_boards = ["XOXXOXOXO"];
    for expected_board in good_boards {
        let board = expected_board.to_string().parse::<Board>();
        assert!(matches!(board, Ok(_)));
        let result_board = board.unwrap().to_string();
        assert_eq!(expected_board, result_board);
    }
}
