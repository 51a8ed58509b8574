//! One player's state and the movement/jail transition logic: modular
//! movement around the board, the three-attempt jail escape rule, and the
//! pass-go cash award.

use vstd::prelude::*;
use crate::dice::DiceRoll;
use crate::location::{
    location_of_ordinal, ordinal_of, step_ordinal, LocationEnum,
};

verus! {

/// One player's mutable attributes. `doubles_roll_jail_count` counts the
/// failed escape attempts while in jail; `doubles_roll_count` is the general
/// doubles-streak counter, distinct from it.
#[derive(Clone, Copy, Debug)]
pub struct Player {
    pub player_number: usize,
    pub cash: i32,
    pub current_location: LocationEnum,
    pub is_in_jail: bool,
    pub doubles_roll_count: i32,
    pub doubles_roll_jail_count: i32,
}

impl Player {
    /// The state a freshly created player starts in.
    pub open spec fn initial(player_number: usize) -> Player {
        Player {
            player_number,
            cash: 1500,
            current_location: LocationEnum::Go,
            is_in_jail: false,
            doubles_roll_count: 0,
            doubles_roll_jail_count: 0,
        }
    }

    /// The player invariant: the jail attempt counter stays in `[0, 3]` and
    /// is meaningful only while the player is in jail — it is zero whenever
    /// the jail flag is clear.
    pub open spec fn wf(self) -> bool {
        &&& 0 <= self.doubles_roll_jail_count <= 3
        &&& !self.is_in_jail ==> self.doubles_roll_jail_count == 0
    }

    /// The movement/jail transition: the state this player is in after
    /// resolving the given roll.
    ///
    /// A jailed player with fewer than three failed attempts who rolls
    /// non-doubles only increments the attempt counter. Otherwise the player
    /// (released first, if jailed) moves by the roll's sum along the cyclic
    /// board, and is credited 200 cash exactly when the landing ordinal is
    /// strictly below the starting ordinal (the literal pass-go rule).
    pub open spec fn moved(p: Player, roll: DiceRoll) -> Player {
        if p.is_in_jail && p.doubles_roll_jail_count < 3 && roll.0 != roll.1 {
            Player {
                doubles_roll_jail_count: (p.doubles_roll_jail_count + 1) as i32,
                ..p
            }
        } else {
            let released = if p.is_in_jail {
                Player { is_in_jail: false, doubles_roll_jail_count: 0, ..p }
            } else {
                p
            };
            let old_ord = ordinal_of(released.current_location);
            let new_ord = step_ordinal(old_ord, roll.sum());
            let landed = Player {
                current_location: location_of_ordinal(new_ord),
                ..released
            };
            if new_ord < old_ord {
                Player { cash: (landed.cash + 200) as i32, ..landed }
            } else {
                landed
            }
        }
    }

    /// A new player: 1500 cash, at `Go`, not in jail, counters at zero.
    pub fn new(player_number: usize) -> (p: Player)
        ensures
            p == Player::initial(player_number),
    {
        Player {
            player_number,
            cash: 1500,
            current_location: LocationEnum::Go,
            is_in_jail: false,
            doubles_roll_count: 0,
            doubles_roll_jail_count: 0,
        }
    }

    /// Fresh players numbered 1 through `player_count`, in join order; a
    /// non-positive count yields no players.
    pub fn create_players(player_count: i32) -> (players: Vec<Player>)
        requires
            player_count < i32::MAX,
        ensures
            players@.len() == (if player_count >= 0 { player_count as int } else { 0 }),
            forall|j: int| 0 <= j < players@.len()
                ==> players@[j] == Player::initial((j + 1) as usize),
    {
        let mut players: Vec<Player> = Vec::new();
        let mut i: i32 = 1;
        while i <= player_count
            invariant
                player_count < i32::MAX,
                1 <= i,
                i <= player_count + 1 || i == 1,
                players@.len() == i - 1,
                forall|j: int| 0 <= j < players@.len()
                    ==> players@[j] == Player::initial((j + 1) as usize),
            decreases player_count + 1 - i,
        {
            players.push(Player::new(i as usize));
            i = i + 1;
        }
        players
    }

    /// Resolve one roll for this player: the jail sub-state first, then
    /// modular movement, then the pass-go credit. The whole transition is
    /// `Player::moved`.
    pub fn update_location(&mut self, roll: &DiceRoll)
        requires
            roll.valid(),
            old(self).cash <= i32::MAX - 200,
        ensures
            *final(self) == Player::moved(*old(self), *roll),
    {
        if self.is_in_jail {
            if self.doubles_roll_jail_count < 3 && !roll.is_doubles() {
                self.doubles_roll_jail_count = self.doubles_roll_jail_count + 1;
                return;
            } else {
                self.remove_from_jail();
            }
        }

        let last_location = self.current_location;
        let last_ord = last_location.ordinal();
        let steps = (roll.0 + roll.1) as usize;
        let new_ord = (last_ord - 1 + steps) % 40 + 1;
        match LocationEnum::from_ordinal(new_ord) {
            Some(l) => {
                self.current_location = l;
            }
            None => {}
        }

        self.check_if_passed_go(last_location, self.current_location);
    }

    /// Put this player in jail: position becomes `Jail` and the jail flag is
    /// set. Cash and counters are untouched.
    pub fn send_to_jail(&mut self)
        ensures
            *final(self) == (Player {
                current_location: LocationEnum::Jail,
                is_in_jail: true,
                ..*old(self)
            }),
    {
        self.current_location = LocationEnum::Jail;
        self.is_in_jail = true;
    }

    /// Release this player: the jail flag is cleared and the jail attempt
    /// counter is reset to zero, together.
    pub fn remove_from_jail(&mut self)
        ensures
            *final(self) == (Player {
                is_in_jail: false,
                doubles_roll_jail_count: 0,
                ..*old(self)
            }),
    {
        self.is_in_jail = false;
        self.doubles_roll_jail_count = 0;
    }

    /// The pass-go credit: 200 cash exactly when the new ordinal is strictly
    /// below the old one, i.e. the move wrapped past the starting square.
    pub fn check_if_passed_go(
        &mut self,
        old_location: LocationEnum,
        new_location: LocationEnum,
    )
        requires
            old(self).cash <= i32::MAX - 200,
        ensures
            *final(self) == (if ordinal_of(new_location) < ordinal_of(old_location) {
                Player { cash: (old(self).cash + 200) as i32, ..*old(self) }
            } else {
                *old(self)
            }),
    {
        if new_location.ordinal() < old_location.ordinal() {
            self.cash = self.cash + 200;
        }
    }
}

/// Resolving any valid roll keeps the player's position on the board: the
/// post-movement ordinal is in `[1, 40]` — the modular arithmetic never
/// produces 0 or a value above 40.
pub proof fn lemma_moved_ordinal_in_range(p: Player, roll: DiceRoll)
    requires
        roll.valid(),
    ensures
        1 <= ordinal_of(Player::moved(p, roll).current_location) <= 40,
{
    crate::location::lemma_ordinal_in_range(p.current_location);
    crate::location::lemma_step_ordinal_in_range(
        ordinal_of(p.current_location),
        roll.sum(),
    );
    crate::location::lemma_ordinal_in_range(Player::moved(p, roll).current_location);
}

/// A jailed player with fewer than three failed attempts who rolls
/// non-doubles does not move: the position is unchanged, the attempt counter
/// goes up by exactly one, and cash is unchanged.
pub proof fn lemma_jailed_non_doubles_stays(p: Player, roll: DiceRoll)
    requires
        roll.valid(),
        p.is_in_jail,
        p.doubles_roll_jail_count < 3,
        roll.0 != roll.1,
    ensures
        Player::moved(p, roll).current_location == p.current_location,
        Player::moved(p, roll).is_in_jail,
        Player::moved(p, roll).doubles_roll_jail_count == p.doubles_roll_jail_count + 1,
        Player::moved(p, roll).cash == p.cash,
{
}

/// A jailed player who rolls doubles (at any attempt count) or whose attempt
/// counter already reached three is released — the jail flag clears and the
/// counter resets to zero — and normal movement is applied with that same
/// roll, including the pass-go credit.
pub proof fn lemma_jailed_release_and_move(p: Player, roll: DiceRoll)
    requires
        roll.valid(),
        p.is_in_jail,
        roll.0 == roll.1 || p.doubles_roll_jail_count >= 3,
        p.cash <= i32::MAX - 200,
    ensures
        !Player::moved(p, roll).is_in_jail,
        Player::moved(p, roll).doubles_roll_jail_count == 0,
        Player::moved(p, roll).current_location == location_of_ordinal(
            step_ordinal(ordinal_of(p.current_location), roll.sum()),
        ),
        Player::moved(p, roll).cash == p.cash + (
            if step_ordinal(ordinal_of(p.current_location), roll.sum())
                < ordinal_of(p.current_location) { 200int } else { 0int }
        ),
{
}

/// The pass-go cash credit. A free player moving from ordinal 40 always
/// wraps to a strictly lower ordinal and is credited exactly 200 cash; a
/// move that does not wrap (the landing ordinal is not below the starting
/// one) credits nothing.
pub proof fn lemma_pass_go_credit(p: Player, roll: DiceRoll)
    requires
        roll.valid(),
        !p.is_in_jail,
        p.cash <= i32::MAX - 200,
    ensures
        ordinal_of(p.current_location) == 40 ==> {
            &&& ordinal_of(Player::moved(p, roll).current_location)
                < ordinal_of(p.current_location)
            &&& Player::moved(p, roll).cash == p.cash + 200
        },
        ordinal_of(Player::moved(p, roll).current_location)
            >= ordinal_of(p.current_location)
            ==> Player::moved(p, roll).cash == p.cash,
{
    crate::location::lemma_ordinal_in_range(p.current_location);
    crate::location::lemma_step_ordinal_in_range(
        ordinal_of(p.current_location),
        roll.sum(),
    );
    if ordinal_of(p.current_location) == 40 {
        assert(step_ordinal(40, roll.sum()) == roll.sum()) by (nonlinear_arith)
            requires 2 <= roll.sum() <= 10;
        crate::location::lemma_ordinal_in_range(
            location_of_ordinal(step_ordinal(40, roll.sum())),
        );
        crate::location::lemma_ordinal_round_trip(
            p.current_location,
            step_ordinal(40, roll.sum()),
        );
    }
}

/// Resolving a roll preserves the player invariant: the attempt counter
/// stays in `[0, 3]` and is zero whenever the player is out of jail.
pub proof fn lemma_moved_preserves_wf(p: Player, roll: DiceRoll)
    requires
        roll.valid(),
        p.wf(),
    ensures
        Player::moved(p, roll).wf(),
{
}

} // verus!
