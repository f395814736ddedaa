#[test]
fn test_game_update() {}
