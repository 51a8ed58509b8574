//! A Monopoly turn engine for a fixed 40-square circular board: dice-driven
//! player movement, a jail sub-state with a three-attempt escape rule, a
//! pass-go cash award, and per-square landing effects dispatched through a
//! square registry.

use vstd::prelude::*;

pub mod board_state;
pub mod dice;
pub mod location;
pub mod player;

pub use board_state::BoardState;
pub use dice::{Dice, DiceRoll, RollEngine};
pub use location::{LandingEffect, LocationEnum, LocationTypeEnum, Properties, Property};
pub use player::Player;

verus! {

/// The two failure kinds of the engine. Both report an invariant violation —
/// a caller-forced state the core never produces — and abort the operation.
#[derive(Clone, Copy, PartialEq, Eq, Structural, Debug)]
pub enum GameError {
    /// The turn cursor (or an explicit lookup) names a player number that is
    /// absent from the roster.
    PlayerNotFound,
    /// A resolved board position has no registered square.
    SquareNotFound,
}

/// A fresh game session over the random dice source, with `player_count`
/// players already joined, numbered 1 upward, and the cursor at player 1.
pub fn create_new_game(player_count: i32) -> (board: BoardState<Dice>)
    requires
        player_count < i32::MAX,
    ensures
        board.player_turn == 1,
        board.players@.len() == (if player_count >= 0 { player_count as int } else { 0 }),
        forall|j: int| 0 <= j < board.players@.len()
            ==> board.players@[j] == Player::initial((j + 1) as usize),
        board.properties.complete(),
{
    let mut board = BoardState::new(Dice {});
    let players = create_new_players(player_count);
    let ghost joined = players@;
    board.add_players(players);
    proof {
        assert(board.players@ =~= joined);
    }
    board
}

/// Fresh players numbered 1 through `player_count`, in join order.
pub fn create_new_players(player_count: i32) -> (players: Vec<Player>)
    requires
        player_count < i32::MAX,
    ensures
        players@.len() == (if player_count >= 0 { player_count as int } else { 0 }),
        forall|j: int| 0 <= j < players@.len()
            ==> players@[j] == Player::initial((j + 1) as usize),
{
    Player::create_players(player_count)
}

/// One fresh player with the given number.
pub fn create_new_player(player_number: i32) -> (p: Player)
    requires
        player_number >= 0,
    ensures
        p == Player::initial(player_number as usize),
{
    Player::new(player_number as usize)
}

} // verus!
