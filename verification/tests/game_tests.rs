use monopoly::{create_new_game, create_new_player, create_new_players};

#[test]
fn can_create_new_game() {
    let board = create_new_game(5);
    assert_eq!(5, board.players.len());
    assert_eq!(1, board.player_turn);
}

#[test]
fn can_add_players_to_board() {
    let mut board = create_new_game(0);
    assert_eq!(0, board.players.len());
    board.add_players(create_new_players(2));
    assert_eq!(2, board.players.len());
}

#[test]
fn can_add_player_to_board() {
    let mut board = create_new_game(0);
    assert_eq!(0, board.players.len());
    board.add_player(create_new_player(1));
    assert_eq!(1, board.players.len());
}
