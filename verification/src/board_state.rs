//! The turn engine: the player roster, the turn cursor, the shared dice
//! source and square registry, and the orchestration of one full turn —
//! roll, resolve movement and jail, run the landed square's effect, and
//! advance (or retain) the turn pointer.

use vstd::prelude::*;
use crate::dice::{DiceRoll, RollEngine};
use crate::location::{ordinal_of, Properties};
use crate::player::Player;
use crate::GameError;

verus! {

/// One game session. The roster maps player number `n` to `players[n - 1]`:
/// numbers are 1-based and assigned sequentially in join order. `player_turn`
/// is the turn cursor — the player number whose turn is active.
pub struct BoardState<R: RollEngine> {
    pub player_turn: usize,
    pub players: Vec<Player>,
    pub roll_engine: R,
    pub properties: Properties,
}

/// The round-robin rule for the turn cursor: doubles leave the cursor
/// unchanged (the same player goes again); otherwise it becomes
/// `(cursor mod n) + 1`, where `n` is the roster size at call time.
pub open spec fn next_cursor(cursor: int, n: int, doubles: bool) -> int {
    if doubles {
        cursor
    } else {
        cursor % n + 1
    }
}

impl<R: RollEngine> BoardState<R> {
    /// How one turn, resolved with the given roll, transforms the engine.
    ///
    /// With the cursor outside the roster the turn fails with
    /// `PlayerNotFound` and changes nothing. Otherwise the current player
    /// resolves the roll (`Player::moved`); if the registry has no record
    /// for the landed position the turn fails with `SquareNotFound`, with
    /// the movement applied but the cursor unchanged; otherwise the landed
    /// square's effect runs and the cursor advances by the round-robin rule.
    pub open spec fn turn_transition(
        pre: Self,
        post: Self,
        roll: DiceRoll,
        r: Result<(), GameError>,
    ) -> bool {
        if !(1 <= pre.player_turn <= pre.players@.len()) {
            &&& r == Err::<(), GameError>(GameError::PlayerNotFound)
            &&& post.players@ == pre.players@
            &&& post.player_turn == pre.player_turn
            &&& post.properties.list@ == pre.properties.list@
            &&& post.roll_engine == pre.roll_engine
        } else {
            let idx = pre.player_turn - 1;
            let moved = Player::moved(pre.players@[idx], roll);
            &&& post.players@ == pre.players@.update(idx, moved)
            &&& post.properties.list@ == pre.properties.list@
            &&& post.roll_engine == pre.roll_engine
            &&& if ordinal_of(moved.current_location) > pre.properties.list@.len() {
                &&& r == Err::<(), GameError>(GameError::SquareNotFound)
                &&& post.player_turn == pre.player_turn
            } else {
                &&& r == Ok::<(), GameError>(())
                &&& post.player_turn == next_cursor(
                    pre.player_turn as int,
                    pre.players@.len() as int,
                    roll.0 == roll.1,
                )
            }
        }
    }

    /// The cash headroom the current player needs so that a pass-go credit
    /// cannot overflow.
    pub open spec fn current_player_cash_ok(self) -> bool {
        1 <= self.player_turn <= self.players@.len()
            ==> self.players@[self.player_turn - 1].cash <= i32::MAX - 200
    }

    /// A fresh game session: empty roster, cursor at player 1, the given
    /// dice source, and a fully initialized square registry.
    pub fn new(roll_engine: R) -> (board: Self)
        ensures
            board.player_turn == 1,
            board.players@.len() == 0,
            board.roll_engine == roll_engine,
            board.properties.complete(),
    {
        BoardState {
            player_turn: 1,
            players: Vec::new(),
            roll_engine,
            properties: Properties::get_new_list(),
        }
    }

    /// Append each player to the roster in order.
    pub fn add_players(&mut self, players: Vec<Player>)
        ensures
            final(self).players@ == old(self).players@ + players@,
            final(self).player_turn == old(self).player_turn,
            final(self).roll_engine == old(self).roll_engine,
            final(self).properties == old(self).properties,
    {
        let mut i: usize = 0;
        while i < players.len()
            invariant
                0 <= i <= players@.len(),
                self.players@ == old(self).players@ + players@.subrange(0, i as int),
                self.player_turn == old(self).player_turn,
                self.roll_engine == old(self).roll_engine,
                self.properties == old(self).properties,
            decreases players@.len() - i,
        {
            self.add_player(players[i]);
            i = i + 1;
            proof {
                assert(players@.subrange(0, i as int)
                    =~= players@.subrange(0, i - 1).push(players@[i - 1]));
            }
        }
        proof {
            assert(players@.subrange(0, players@.len() as int) =~= players@);
        }
    }

    /// Append one player; the assigned player number is the new roster size.
    pub fn add_player(&mut self, player: Player)
        ensures
            final(self).players@ == old(self).players@.push(player),
            final(self).player_turn == old(self).player_turn,
            final(self).roll_engine == old(self).roll_engine,
            final(self).properties == old(self).properties,
    {
        self.players.push(player);
    }

    /// Take one full turn: draw a roll from the dice source, resolve it for
    /// the current player, run the landed square's effect, and advance the
    /// cursor. Some valid roll governs the whole transition; which one is up
    /// to the dice source.
    pub fn take_turn(&mut self) -> (r: Result<(), GameError>)
        requires
            old(self).current_player_cash_ok(),
        ensures
            exists|roll: DiceRoll| roll.valid()
                && #[trigger] Self::turn_transition(*old(self), *final(self), roll, r),
    {
        let roll = self.roll_engine.roll();
        self.take_turn_with_roll(roll)
    }

    /// Take one full turn resolved with the given roll: the deterministic
    /// part of `take_turn`, exact in `turn_transition`.
    pub fn take_turn_with_roll(&mut self, roll: DiceRoll) -> (r: Result<(), GameError>)
        requires
            roll.valid(),
            old(self).current_player_cash_ok(),
        ensures
            Self::turn_transition(*old(self), *final(self), roll, r),
    {
        let cursor = self.player_turn;
        if cursor < 1 || cursor > self.players.len() {
            return Err(GameError::PlayerNotFound);
        }
        let idx = cursor - 1;

        let current_player = &mut self.players[idx];
        current_player.update_location(&roll);
        let player_location = current_player.current_location;

        // The effect's outcome is not consulted yet; all in-scope effects
        // succeed.
        match self.properties.get_property(player_location) {
            Ok(property) => {
                property.run_fn(&mut self.players[idx]);
            }
            Err(e) => {
                proof {
                    assert(self.players@ =~= old(self).players@.update(
                        idx as int,
                        Player::moved(old(self).players@[idx as int], roll),
                    ));
                }
                return Err(e);
            }
        }

        let next = self.get_next_player_turn(&roll);
        self.player_turn = next;
        proof {
            assert(self.players@ =~= old(self).players@.update(
                idx as int,
                Player::moved(old(self).players@[idx as int], roll),
            ));
            assert(self.properties.list@ =~= old(self).properties.list@);
        }
        Ok(())
    }

    /// The mutable roster entry for a player number; fails with
    /// `PlayerNotFound` when no such player has joined.
    pub fn get_current_player_by_number(&mut self, player_number: usize)
        -> (r: Result<&mut Player, GameError>)
        ensures
            match r {
                Ok(p) => {
                    &&& 1 <= player_number <= old(self).players@.len()
                    &&& *p == old(self).players@[player_number - 1]
                    &&& final(self).players@ == old(self).players@.update(
                        player_number - 1,
                        *final(p),
                    )
                    &&& final(self).player_turn == old(self).player_turn
                    &&& final(self).roll_engine == old(self).roll_engine
                    &&& final(self).properties == old(self).properties
                },
                Err(e) => {
                    &&& e == GameError::PlayerNotFound
                    &&& !(1 <= player_number <= old(self).players@.len())
                    &&& *final(self) == *old(self)
                },
            },
    {
        if 1 <= player_number && player_number <= self.players.len() {
            Ok(&mut self.players[player_number - 1])
        } else {
            Err(GameError::PlayerNotFound)
        }
    }

    /// The mutable roster entry the turn cursor points at; fails with
    /// `PlayerNotFound` when the cursor references no roster entry.
    pub fn get_current_player(&mut self) -> (r: Result<&mut Player, GameError>)
        ensures
            match r {
                Ok(p) => {
                    &&& 1 <= old(self).player_turn <= old(self).players@.len()
                    &&& *p == old(self).players@[old(self).player_turn - 1]
                    &&& final(self).players@ == old(self).players@.update(
                        old(self).player_turn - 1,
                        *final(p),
                    )
                    &&& final(self).player_turn == old(self).player_turn
                    &&& final(self).roll_engine == old(self).roll_engine
                    &&& final(self).properties == old(self).properties
                },
                Err(e) => {
                    &&& e == GameError::PlayerNotFound
                    &&& !(1 <= old(self).player_turn <= old(self).players@.len())
                    &&& *final(self) == *old(self)
                },
            },
    {
        let player_turn = self.player_turn;
        self.get_current_player_by_number(player_turn)
    }

    /// Whose turn comes next under the round-robin rule: the cursor itself
    /// on doubles, `(cursor mod roster size) + 1` otherwise.
    pub fn get_next_player_turn(&self, roll: &DiceRoll) -> (t: usize)
        requires
            self.players@.len() >= 1,
        ensures
            t == next_cursor(
                self.player_turn as int,
                self.players@.len() as int,
                roll.0 == roll.1,
            ),
    {
        if roll.is_doubles() {
            return self.player_turn;
        }

        self.player_turn % self.players.len() + 1
    }
}

} // verus!
