//! The dice abstraction: a roll is a pair of face values, and a roll source
//! is a capability that produces one roll per invocation.

use vstd::prelude::*;

verus! {

/// One roll of the two dice: the pair of face values shown.
#[derive(Clone, Copy)]
pub struct DiceRoll(pub i32, pub i32);

impl DiceRoll {
    /// A roll the dice source can actually produce: each face value lies in
    /// the inclusive range `[1, 5]`.
    pub open spec fn valid(self) -> bool {
        &&& 1 <= self.0 <= 5
        &&& 1 <= self.1 <= 5
    }

    /// The sum of the two face values: how many squares the player moves.
    pub open spec fn sum(self) -> int {
        self.0 + self.1
    }

    /// A doubles roll shows the same face value on both dice.
    pub fn is_doubles(&self) -> (r: bool)
        ensures
            r == (self.0 == self.1),
    {
        self.0 == self.1
    }
}

/// A source of dice rolls. The engine is written against this capability so
/// that a deterministic source can stand in for the random one.
pub trait RollEngine {
    /// Produce the next roll. Every source yields face values in `[1, 5]`.
    fn roll(&self) -> (r: DiceRoll)
        ensures
            r.valid(),
    ;
}

/// Relies on `rand::thread_rng` and `rand::Rng::gen_range(1..6)`: the range is
/// upper-exclusive, so each call returns a value in `1 ..= 5`.
#[verifier::external_body]
fn random_face() -> (r: i32)
    ensures
        1 <= r <= 5,
{
    rand::Rng::gen_range(&mut rand::thread_rng(), 1..6)
}

/// The random dice source: draws each face value independently.
pub struct Dice;

impl RollEngine for Dice {
    fn roll(&self) -> (r: DiceRoll) {
        let first = random_face();
        let second = random_face();
        DiceRoll(first, second)
    }
}

} // verus!
