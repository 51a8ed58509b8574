use monopoly::{BoardState, Dice, DiceRoll, GameError, LocationEnum, Player, Properties, RollEngine};

struct FixedRollEngine(DiceRoll);

impl FixedRollEngine {
    fn set_roll(&mut self, first: i32, second: i32) {
        self.0 = DiceRoll(first, second);
    }
}

impl RollEngine for FixedRollEngine {
    fn roll(&self) -> DiceRoll {
        self.0
    }
}

fn fixed_board(player_count: i32, first: i32, second: i32) -> BoardState<FixedRollEngine> {
    let mut board = BoardState::new(FixedRollEngine(DiceRoll(first, second)));
    board.add_players(Player::create_players(player_count));
    board
}

#[test]
fn movement_ordinal_always_in_range() {
    for start in 1..=40usize {
        for first in 1..=5i32 {
            for second in 1..=5i32 {
                let mut player = Player::new(1);
                player.current_location = LocationEnum::from_ordinal(start).unwrap();
                player.update_location(&DiceRoll(first, second));
                let landed = player.current_location.ordinal();
                assert!(1 <= landed && landed <= 40);
                let expected = (start - 1 + (first + second) as usize) % 40 + 1;
                assert_eq!(landed, expected);
            }
        }
    }
}

#[test]
fn jail_attempts_climb_then_release() {
    let mut board = fixed_board(5, 2, 3);
    board.get_current_player().unwrap().send_to_jail();
    for expected_attempts in 1..=3i32 {
        board.take_turn().unwrap();
        board.player_turn = 1;
        let player = board.get_current_player().unwrap();
        assert!(player.is_in_jail);
        assert_eq!(player.current_location, LocationEnum::Jail);
        assert_eq!(player.doubles_roll_jail_count, expected_attempts);
        assert_eq!(player.cash, 1500);
    }
    board.take_turn().unwrap();
    let player = board.get_current_player_by_number(1).unwrap();
    assert!(!player.is_in_jail);
    assert_eq!(player.doubles_roll_jail_count, 0);
    assert_eq!(player.current_location, LocationEnum::PennsylvaniaRailroad);
}

#[test]
fn doubles_release_applies_same_roll() {
    let mut board = fixed_board(5, 1, 1);
    let player = board.get_current_player().unwrap();
    player.send_to_jail();
    player.doubles_roll_jail_count = 2;
    board.take_turn().unwrap();
    let player = board.get_current_player_by_number(1).unwrap();
    assert!(!player.is_in_jail);
    assert_eq!(player.doubles_roll_jail_count, 0);
    assert_eq!(player.current_location, LocationEnum::ElectricCompany);
}

#[test]
fn pass_go_with_doubles_credits_and_keeps_cursor() {
    let mut board = fixed_board(5, 2, 2);
    board.get_current_player().unwrap().current_location = LocationEnum::Boardwalk;
    board.take_turn().unwrap();
    assert_eq!(board.player_turn, 1);
    let player = board.get_current_player().unwrap();
    assert_eq!(player.current_location, LocationEnum::BalticAvenue);
    assert_eq!(player.cash, 1700);
}

#[test]
fn moving_without_wrapping_credits_nothing() {
    let mut board = fixed_board(2, 2, 3);
    board.take_turn().unwrap();
    let player = board.get_current_player_by_number(1).unwrap();
    assert_eq!(player.current_location, LocationEnum::ReadingRailroad);
    assert_eq!(player.cash, 1500);
}

#[test]
fn turn_advances_round_robin_and_wraps() {
    let mut board = fixed_board(5, 2, 1);
    board.take_turn().unwrap();
    assert_eq!(board.player_turn, 2);
    board.player_turn = 5;
    board.take_turn().unwrap();
    assert_eq!(board.player_turn, 1);
}

#[test]
fn take_turn_without_players_reports_player_not_found() {
    let mut board = fixed_board(0, 2, 1);
    assert_eq!(board.take_turn(), Err(GameError::PlayerNotFound));
}

#[test]
fn lookup_of_absent_player_number_reports_player_not_found() {
    let mut board = fixed_board(2, 2, 1);
    assert_eq!(
        board.get_current_player_by_number(3).unwrap_err(),
        GameError::PlayerNotFound
    );
    assert_eq!(
        board.get_current_player_by_number(0).unwrap_err(),
        GameError::PlayerNotFound
    );
}

#[test]
fn empty_registry_reports_square_not_found() {
    let mut board = fixed_board(1, 2, 1);
    board.properties = Properties { list: Vec::new() };
    assert_eq!(board.take_turn(), Err(GameError::SquareNotFound));
    let player = board.get_current_player().unwrap();
    assert_eq!(player.current_location, LocationEnum::BalticAvenue);
}

#[test]
fn dice_rolls_stay_in_range() {
    let dice = Dice {};
    for _ in 0..200 {
        let roll = dice.roll();
        assert!(1 <= roll.0 && roll.0 <= 5);
        assert!(1 <= roll.1 && roll.1 <= 5);
    }
}

#[test]
fn is_doubles_compares_faces() {
    assert!(DiceRoll(3, 3).is_doubles());
    assert!(!DiceRoll(3, 4).is_doubles());
}

#[test]
fn new_player_starts_at_go_with_1500() {
    let player = Player::new(7);
    assert_eq!(player.player_number, 7);
    assert_eq!(player.cash, 1500);
    assert_eq!(player.current_location, LocationEnum::Go);
    assert!(!player.is_in_jail);
    assert_eq!(player.doubles_roll_count, 0);
    assert_eq!(player.doubles_roll_jail_count, 0);
}

#[test]
fn create_players_numbers_sequentially() {
    let players = Player::create_players(3);
    assert_eq!(players.len(), 3);
    for (i, player) in players.iter().enumerate() {
        assert_eq!(player.player_number, i + 1);
    }
    assert!(Player::create_players(0).is_empty());
    assert!(Player::create_players(-2).is_empty());
}

#[test]
fn send_and_remove_from_jail_touch_only_jail_state() {
    let mut player = Player::new(1);
    player.send_to_jail();
    assert_eq!(player.current_location, LocationEnum::Jail);
    assert!(player.is_in_jail);
    assert_eq!(player.cash, 1500);
    player.doubles_roll_jail_count = 2;
    player.remove_from_jail();
    assert!(!player.is_in_jail);
    assert_eq!(player.doubles_roll_jail_count, 0);
    assert_eq!(player.current_location, LocationEnum::Jail);
}
