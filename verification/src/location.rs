//! The 40-square cyclic board: the closed enumeration of squares, their
//! ordinals (1 through 40) and category tags, and the square registry that
//! maps each board position to its mutable square record.

use vstd::prelude::*;
use crate::player::Player;
use crate::GameError;

verus! {

/// One of the 40 board squares, listed in board order: `Go` has ordinal 1,
/// `Boardwalk` ordinal 40.
#[derive(Clone, Copy, PartialEq, Eq, Structural, Debug)]
pub enum LocationEnum {
    Go,
    MediterraneanAvenue,
    CommunityChest1,
    BalticAvenue,
    IncomeTax,
    ReadingRailroad,
    OrientalAvenue,
    Chance1,
    VermontAvenue,
    ConnecticutAvenue,
    Jail,
    StCharlesPlace,
    ElectricCompany,
    StateAvenue,
    VirginiaAvenue,
    PennsylvaniaRailroad,
    StJamesPlace,
    CommunityChest2,
    TennesseeAvenue,
    NewYorkAvenue,
    FreeParking,
    KentuckyAvenue,
    Chance2,
    IndianaAvenue,
    IllinoisAvenue,
    BnORailroad,
    AtlanticAvenue,
    VentnorAvenue,
    WaterWorks,
    MarvinGardens,
    GoToJail,
    PacificAvenue,
    NorthCarolinaAvenue,
    CommunityChest3,
    PennsylvaniaAvenue,
    ShortLine,
    Chance3,
    ParkPlace,
    LuxuryTax,
    Boardwalk,
}

/// The category tag of a square, fixed at construction.
#[derive(Clone, Copy, PartialEq, Eq, Structural, Debug)]
pub enum LocationTypeEnum {
    Go,
    Property,
    Tax,
    Neutral,
    Chance,
    CommunityChest,
    Railroad,
    Utility,
    Jail,
}

/// The ordinal of a square: its 1-based index in board order.
pub open spec fn ordinal_of(l: LocationEnum) -> int {
    match l {
        LocationEnum::Go => 1,
        LocationEnum::MediterraneanAvenue => 2,
        LocationEnum::CommunityChest1 => 3,
        LocationEnum::BalticAvenue => 4,
        LocationEnum::IncomeTax => 5,
        LocationEnum::ReadingRailroad => 6,
        LocationEnum::OrientalAvenue => 7,
        LocationEnum::Chance1 => 8,
        LocationEnum::VermontAvenue => 9,
        LocationEnum::ConnecticutAvenue => 10,
        LocationEnum::Jail => 11,
        LocationEnum::StCharlesPlace => 12,
        LocationEnum::ElectricCompany => 13,
        LocationEnum::StateAvenue => 14,
        LocationEnum::VirginiaAvenue => 15,
        LocationEnum::PennsylvaniaRailroad => 16,
        LocationEnum::StJamesPlace => 17,
        LocationEnum::CommunityChest2 => 18,
        LocationEnum::TennesseeAvenue => 19,
        LocationEnum::NewYorkAvenue => 20,
        LocationEnum::FreeParking => 21,
        LocationEnum::KentuckyAvenue => 22,
        LocationEnum::Chance2 => 23,
        LocationEnum::IndianaAvenue => 24,
        LocationEnum::IllinoisAvenue => 25,
        LocationEnum::BnORailroad => 26,
        LocationEnum::AtlanticAvenue => 27,
        LocationEnum::VentnorAvenue => 28,
        LocationEnum::WaterWorks => 29,
        LocationEnum::MarvinGardens => 30,
        LocationEnum::GoToJail => 31,
        LocationEnum::PacificAvenue => 32,
        LocationEnum::NorthCarolinaAvenue => 33,
        LocationEnum::CommunityChest3 => 34,
        LocationEnum::PennsylvaniaAvenue => 35,
        LocationEnum::ShortLine => 36,
        LocationEnum::Chance3 => 37,
        LocationEnum::ParkPlace => 38,
        LocationEnum::LuxuryTax => 39,
        LocationEnum::Boardwalk => 40,
    }
}

/// The square with the given ordinal; defined for ordinals 1 through 40,
/// and falling back to `Go` elsewhere so that the function is total.
pub open spec fn location_of_ordinal(ord: int) -> LocationEnum {
    if ord == 2 { LocationEnum::MediterraneanAvenue }
    else if ord == 3 { LocationEnum::CommunityChest1 }
    else if ord == 4 { LocationEnum::BalticAvenue }
    else if ord == 5 { LocationEnum::IncomeTax }
    else if ord == 6 { LocationEnum::ReadingRailroad }
    else if ord == 7 { LocationEnum::OrientalAvenue }
    else if ord == 8 { LocationEnum::Chance1 }
    else if ord == 9 { LocationEnum::VermontAvenue }
    else if ord == 10 { LocationEnum::ConnecticutAvenue }
    else if ord == 11 { LocationEnum::Jail }
    else if ord == 12 { LocationEnum::StCharlesPlace }
    else if ord == 13 { LocationEnum::ElectricCompany }
    else if ord == 14 { LocationEnum::StateAvenue }
    else if ord == 15 { LocationEnum::VirginiaAvenue }
    else if ord == 16 { LocationEnum::PennsylvaniaRailroad }
    else if ord == 17 { LocationEnum::StJamesPlace }
    else if ord == 18 { LocationEnum::CommunityChest2 }
    else if ord == 19 { LocationEnum::TennesseeAvenue }
    else if ord == 20 { LocationEnum::NewYorkAvenue }
    else if ord == 21 { LocationEnum::FreeParking }
    else if ord == 22 { LocationEnum::KentuckyAvenue }
    else if ord == 23 { LocationEnum::Chance2 }
    else if ord == 24 { LocationEnum::IndianaAvenue }
    else if ord == 25 { LocationEnum::IllinoisAvenue }
    else if ord == 26 { LocationEnum::BnORailroad }
    else if ord == 27 { LocationEnum::AtlanticAvenue }
    else if ord == 28 { LocationEnum::VentnorAvenue }
    else if ord == 29 { LocationEnum::WaterWorks }
    else if ord == 30 { LocationEnum::MarvinGardens }
    else if ord == 31 { LocationEnum::GoToJail }
    else if ord == 32 { LocationEnum::PacificAvenue }
    else if ord == 33 { LocationEnum::NorthCarolinaAvenue }
    else if ord == 34 { LocationEnum::CommunityChest3 }
    else if ord == 35 { LocationEnum::PennsylvaniaAvenue }
    else if ord == 36 { LocationEnum::ShortLine }
    else if ord == 37 { LocationEnum::Chance3 }
    else if ord == 38 { LocationEnum::ParkPlace }
    else if ord == 39 { LocationEnum::LuxuryTax }
    else if ord == 40 { LocationEnum::Boardwalk }
    else { LocationEnum::Go }
}

/// The category tag of each square, per the fixed board table.
pub open spec fn type_of(l: LocationEnum) -> LocationTypeEnum {
    match l {
        LocationEnum::Go => LocationTypeEnum::Go,
        LocationEnum::MediterraneanAvenue => LocationTypeEnum::Property,
        LocationEnum::CommunityChest1 => LocationTypeEnum::CommunityChest,
        LocationEnum::BalticAvenue => LocationTypeEnum::Property,
        LocationEnum::IncomeTax => LocationTypeEnum::Tax,
        LocationEnum::ReadingRailroad => LocationTypeEnum::Railroad,
        LocationEnum::OrientalAvenue => LocationTypeEnum::Property,
        LocationEnum::Chance1 => LocationTypeEnum::Chance,
        LocationEnum::VermontAvenue => LocationTypeEnum::Property,
        LocationEnum::ConnecticutAvenue => LocationTypeEnum::Property,
        LocationEnum::Jail => LocationTypeEnum::Jail,
        LocationEnum::StCharlesPlace => LocationTypeEnum::Property,
        LocationEnum::ElectricCompany => LocationTypeEnum::Utility,
        LocationEnum::StateAvenue => LocationTypeEnum::Property,
        LocationEnum::VirginiaAvenue => LocationTypeEnum::Property,
        LocationEnum::PennsylvaniaRailroad => LocationTypeEnum::Railroad,
        LocationEnum::StJamesPlace => LocationTypeEnum::Property,
        LocationEnum::CommunityChest2 => LocationTypeEnum::CommunityChest,
        LocationEnum::TennesseeAvenue => LocationTypeEnum::Property,
        LocationEnum::NewYorkAvenue => LocationTypeEnum::Property,
        LocationEnum::FreeParking => LocationTypeEnum::Neutral,
        LocationEnum::KentuckyAvenue => LocationTypeEnum::Property,
        LocationEnum::Chance2 => LocationTypeEnum::Chance,
        LocationEnum::IndianaAvenue => LocationTypeEnum::Property,
        LocationEnum::IllinoisAvenue => LocationTypeEnum::Property,
        LocationEnum::BnORailroad => LocationTypeEnum::Railroad,
        LocationEnum::AtlanticAvenue => LocationTypeEnum::Property,
        LocationEnum::VentnorAvenue => LocationTypeEnum::Property,
        LocationEnum::WaterWorks => LocationTypeEnum::Utility,
        LocationEnum::MarvinGardens => LocationTypeEnum::Property,
        LocationEnum::GoToJail => LocationTypeEnum::Neutral,
        LocationEnum::PacificAvenue => LocationTypeEnum::Property,
        LocationEnum::NorthCarolinaAvenue => LocationTypeEnum::Property,
        LocationEnum::CommunityChest3 => LocationTypeEnum::CommunityChest,
        LocationEnum::PennsylvaniaAvenue => LocationTypeEnum::Property,
        LocationEnum::ShortLine => LocationTypeEnum::Railroad,
        LocationEnum::Chance3 => LocationTypeEnum::Chance,
        LocationEnum::ParkPlace => LocationTypeEnum::Property,
        LocationEnum::LuxuryTax => LocationTypeEnum::Tax,
        LocationEnum::Boardwalk => LocationTypeEnum::Property,
    }
}

/// The cyclic successor rule: from a square with ordinal `ord`, moving
/// `steps` squares forward lands on the square with this ordinal.
pub open spec fn step_ordinal(ord: int, steps: int) -> int {
    (ord - 1 + steps) % 40 + 1
}

/// Every square's ordinal lies in `[1, 40]`.
pub proof fn lemma_ordinal_in_range(l: LocationEnum)
    ensures
        1 <= ordinal_of(l) <= 40,
{
}

/// The modular successor arithmetic never leaves the board: for any start
/// ordinal in `[1, 40]` and any non-negative step count, the landing ordinal
/// is again in `[1, 40]` — never 0 and never above 40.
pub proof fn lemma_step_ordinal_in_range(ord: int, steps: int)
    requires
        1 <= ord <= 40,
        0 <= steps,
    ensures
        1 <= step_ordinal(ord, steps) <= 40,
{
    assert(0 <= (ord - 1 + steps) % 40 < 40) by (nonlinear_arith)
        requires 0 <= ord - 1 + steps;
}

/// Converting a square to its ordinal and back is the identity, and the
/// ordinal of the square at a valid ordinal is that ordinal.
pub proof fn lemma_ordinal_round_trip(l: LocationEnum, ord: int)
    requires
        1 <= ord <= 40,
    ensures
        location_of_ordinal(ordinal_of(l)) == l,
        ordinal_of(location_of_ordinal(ord)) == ord,
{
}

impl LocationEnum {
    /// The 1-based ordinal of this square in board order.
    pub fn ordinal(&self) -> (n: usize)
        ensures
            n == ordinal_of(*self),
            1 <= n <= 40,
    {
        match self {
            LocationEnum::Go => 1,
            LocationEnum::MediterraneanAvenue => 2,
            LocationEnum::CommunityChest1 => 3,
            LocationEnum::BalticAvenue => 4,
            LocationEnum::IncomeTax => 5,
            LocationEnum::ReadingRailroad => 6,
            LocationEnum::OrientalAvenue => 7,
            LocationEnum::Chance1 => 8,
            LocationEnum::VermontAvenue => 9,
            LocationEnum::ConnecticutAvenue => 10,
            LocationEnum::Jail => 11,
            LocationEnum::StCharlesPlace => 12,
            LocationEnum::ElectricCompany => 13,
            LocationEnum::StateAvenue => 14,
            LocationEnum::VirginiaAvenue => 15,
            LocationEnum::PennsylvaniaRailroad => 16,
            LocationEnum::StJamesPlace => 17,
            LocationEnum::CommunityChest2 => 18,
            LocationEnum::TennesseeAvenue => 19,
            LocationEnum::NewYorkAvenue => 20,
            LocationEnum::FreeParking => 21,
            LocationEnum::KentuckyAvenue => 22,
            LocationEnum::Chance2 => 23,
            LocationEnum::IndianaAvenue => 24,
            LocationEnum::IllinoisAvenue => 25,
            LocationEnum::BnORailroad => 26,
            LocationEnum::AtlanticAvenue => 27,
            LocationEnum::VentnorAvenue => 28,
            LocationEnum::WaterWorks => 29,
            LocationEnum::MarvinGardens => 30,
            LocationEnum::GoToJail => 31,
            LocationEnum::PacificAvenue => 32,
            LocationEnum::NorthCarolinaAvenue => 33,
            LocationEnum::CommunityChest3 => 34,
            LocationEnum::PennsylvaniaAvenue => 35,
            LocationEnum::ShortLine => 36,
            LocationEnum::Chance3 => 37,
            LocationEnum::ParkPlace => 38,
            LocationEnum::LuxuryTax => 39,
            LocationEnum::Boardwalk => 40,
        }
    }

    /// The square with the given 1-based ordinal, or `None` when the ordinal
    /// is outside `[1, 40]` (0 and 41 both fail).
    pub fn from_ordinal(value: usize) -> (r: Option<LocationEnum>)
        ensures
            r == (if 1 <= value <= 40 {
                Some(location_of_ordinal(value as int))
            } else {
                None::<LocationEnum>
            }),
    {
        match value {
            1 => Some(LocationEnum::Go),
            2 => Some(LocationEnum::MediterraneanAvenue),
            3 => Some(LocationEnum::CommunityChest1),
            4 => Some(LocationEnum::BalticAvenue),
            5 => Some(LocationEnum::IncomeTax),
            6 => Some(LocationEnum::ReadingRailroad),
            7 => Some(LocationEnum::OrientalAvenue),
            8 => Some(LocationEnum::Chance1),
            9 => Some(LocationEnum::VermontAvenue),
            10 => Some(LocationEnum::ConnecticutAvenue),
            11 => Some(LocationEnum::Jail),
            12 => Some(LocationEnum::StCharlesPlace),
            13 => Some(LocationEnum::ElectricCompany),
            14 => Some(LocationEnum::StateAvenue),
            15 => Some(LocationEnum::VirginiaAvenue),
            16 => Some(LocationEnum::PennsylvaniaRailroad),
            17 => Some(LocationEnum::StJamesPlace),
            18 => Some(LocationEnum::CommunityChest2),
            19 => Some(LocationEnum::TennesseeAvenue),
            20 => Some(LocationEnum::NewYorkAvenue),
            21 => Some(LocationEnum::FreeParking),
            22 => Some(LocationEnum::KentuckyAvenue),
            23 => Some(LocationEnum::Chance2),
            24 => Some(LocationEnum::IndianaAvenue),
            25 => Some(LocationEnum::IllinoisAvenue),
            26 => Some(LocationEnum::BnORailroad),
            27 => Some(LocationEnum::AtlanticAvenue),
            28 => Some(LocationEnum::VentnorAvenue),
            29 => Some(LocationEnum::WaterWorks),
            30 => Some(LocationEnum::MarvinGardens),
            31 => Some(LocationEnum::GoToJail),
            32 => Some(LocationEnum::PacificAvenue),
            33 => Some(LocationEnum::NorthCarolinaAvenue),
            34 => Some(LocationEnum::CommunityChest3),
            35 => Some(LocationEnum::PennsylvaniaAvenue),
            36 => Some(LocationEnum::ShortLine),
            37 => Some(LocationEnum::Chance3),
            38 => Some(LocationEnum::ParkPlace),
            39 => Some(LocationEnum::LuxuryTax),
            40 => Some(LocationEnum::Boardwalk),
            _ => None,
        }
    }

    /// The category tag of this square.
    pub fn get_location_type(&self) -> (t: LocationTypeEnum)
        ensures
            t == type_of(*self),
    {
        match self {
            LocationEnum::Go => LocationTypeEnum::Go,
            LocationEnum::MediterraneanAvenue => LocationTypeEnum::Property,
            LocationEnum::CommunityChest1 => LocationTypeEnum::CommunityChest,
            LocationEnum::BalticAvenue => LocationTypeEnum::Property,
            LocationEnum::IncomeTax => LocationTypeEnum::Tax,
            LocationEnum::ReadingRailroad => LocationTypeEnum::Railroad,
            LocationEnum::OrientalAvenue => LocationTypeEnum::Property,
            LocationEnum::Chance1 => LocationTypeEnum::Chance,
            LocationEnum::VermontAvenue => LocationTypeEnum::Property,
            LocationEnum::ConnecticutAvenue => LocationTypeEnum::Property,
            LocationEnum::Jail => LocationTypeEnum::Jail,
            LocationEnum::StCharlesPlace => LocationTypeEnum::Property,
            LocationEnum::ElectricCompany => LocationTypeEnum::Utility,
            LocationEnum::StateAvenue => LocationTypeEnum::Property,
            LocationEnum::VirginiaAvenue => LocationTypeEnum::Property,
            LocationEnum::PennsylvaniaRailroad => LocationTypeEnum::Railroad,
            LocationEnum::StJamesPlace => LocationTypeEnum::Property,
            LocationEnum::CommunityChest2 => LocationTypeEnum::CommunityChest,
            LocationEnum::TennesseeAvenue => LocationTypeEnum::Property,
            LocationEnum::NewYorkAvenue => LocationTypeEnum::Property,
            LocationEnum::FreeParking => LocationTypeEnum::Neutral,
            LocationEnum::KentuckyAvenue => LocationTypeEnum::Property,
            LocationEnum::Chance2 => LocationTypeEnum::Chance,
            LocationEnum::IndianaAvenue => LocationTypeEnum::Property,
            LocationEnum::IllinoisAvenue => LocationTypeEnum::Property,
            LocationEnum::BnORailroad => LocationTypeEnum::Railroad,
            LocationEnum::AtlanticAvenue => LocationTypeEnum::Property,
            LocationEnum::VentnorAvenue => LocationTypeEnum::Property,
            LocationEnum::WaterWorks => LocationTypeEnum::Utility,
            LocationEnum::MarvinGardens => LocationTypeEnum::Property,
            LocationEnum::GoToJail => LocationTypeEnum::Neutral,
            LocationEnum::PacificAvenue => LocationTypeEnum::Property,
            LocationEnum::NorthCarolinaAvenue => LocationTypeEnum::Property,
            LocationEnum::CommunityChest3 => LocationTypeEnum::CommunityChest,
            LocationEnum::PennsylvaniaAvenue => LocationTypeEnum::Property,
            LocationEnum::ShortLine => LocationTypeEnum::Railroad,
            LocationEnum::Chance3 => LocationTypeEnum::Chance,
            LocationEnum::ParkPlace => LocationTypeEnum::Property,
            LocationEnum::LuxuryTax => LocationTypeEnum::Tax,
            LocationEnum::Boardwalk => LocationTypeEnum::Property,
        }
    }
}

/// The behavior a square triggers when a player's turn ends on it. All
/// in-scope effects are the no-op that signals success; richer effects
/// (rent, card draws) are added as further variants.
#[derive(Debug)]
pub enum LandingEffect {
    NoOp,
}

impl LandingEffect {
    /// Apply this effect to the landing player; the outcome reports success.
    pub fn apply(&self, player: &mut Player) -> (outcome: bool)
        ensures
            *final(player) == *old(player),
            outcome,
    {
        match self {
            LandingEffect::NoOp => true,
        }
    }
}

/// One square record: its position, category, cost, ownership state,
/// improvement counts, and landing effect.
#[derive(Debug)]
pub struct Property {
    pub location: LocationEnum,
    pub location_type: LocationTypeEnum,
    pub cost: i32,
    pub owned_by_player_number: Option<usize>,
    pub houses: i32,
    pub hotels: i32,
    pub effect: LandingEffect,
}

impl Property {
    /// A fresh square: unowned, with no improvements.
    pub fn new(
        location: LocationEnum,
        location_type: LocationTypeEnum,
        cost: i32,
        effect: LandingEffect,
    ) -> (p: Property)
        requires
            cost >= 0,
        ensures
            p == (Property {
                location,
                location_type,
                cost,
                owned_by_player_number: None::<usize>,
                houses: 0,
                hotels: 0,
                effect,
            }),
    {
        Property {
            location,
            location_type,
            cost,
            owned_by_player_number: None,
            houses: 0,
            hotels: 0,
            effect,
        }
    }

    /// Run this square's landing effect against the player.
    pub fn run_fn(&self, player: &mut Player) -> (outcome: bool)
        ensures
            *final(player) == *old(player),
            outcome,
    {
        self.effect.apply(player)
    }
}

/// The square registry: the square records in board order, the record for
/// the square of ordinal `n` at index `n - 1`.
pub struct Properties {
    pub list: Vec<Property>,
}

impl Properties {
    /// A fully initialized registry: one record per board square, in board
    /// order.
    pub open spec fn complete(self) -> bool {
        &&& self.list@.len() == 40
        &&& forall|j: int| 0 <= j < 40 ==> self.list@[j] == initial_square(j + 1)
    }

    /// Append a square record at the next position in board order.
    pub fn add(&mut self, property: Property)
        ensures
            final(self).list@ == old(self).list@.push(property),
    {
        self.list.push(property);
    }

    /// Look up the mutable square record for a board position; fails with
    /// `SquareNotFound` when the registry holds no record for it.
    pub fn get_property(&mut self, location: LocationEnum)
        -> (r: Result<&mut Property, GameError>)
        ensures
            match r {
                Ok(p) => {
                    &&& ordinal_of(location) <= old(self).list@.len()
                    &&& *p == old(self).list@[ordinal_of(location) - 1]
                    &&& final(self).list@ == old(self).list@.update(
                        ordinal_of(location) - 1,
                        *final(p),
                    )
                },
                Err(e) => {
                    &&& e == GameError::SquareNotFound
                    &&& ordinal_of(location) > old(self).list@.len()
                    &&& *final(self) == *old(self)
                },
            },
    {
        let ord = location.ordinal();
        if ord <= self.list.len() {
            Ok(&mut self.list[ord - 1])
        } else {
            Err(GameError::SquareNotFound)
        }
    }

    /// The registry pre-populated with exactly 40 squares in position order,
    /// each tagged per the fixed board table, with zero cost, no owner, no
    /// improvements, and the no-op landing effect.
    pub fn get_new_list() -> (r: Properties)
        ensures
            r.complete(),
    {
        let mut init = Properties { list: Vec::new() };
        let mut ord: usize = 1;
        while ord <= 40
            invariant
                1 <= ord <= 41,
                init.list@.len() == ord - 1,
                forall|j: int| 0 <= j < ord - 1 ==> init.list@[j] == initial_square(j + 1),
            decreases 41 - ord,
        {
            match LocationEnum::from_ordinal(ord) {
                Some(location) => {
                    let location_type = location.get_location_type();
                    init.add(Property::new(location, location_type, 0, LandingEffect::NoOp));
                }
                None => {}
            }
            ord = ord + 1;
        }
        init
    }
}

/// The square at ordinal `ord` as the registry initializes it: category per
/// the board table, zero cost, unowned, no improvements, no-op effect.
pub open spec fn initial_square(ord: int) -> Property {
    Property {
        location: location_of_ordinal(ord),
        location_type: type_of(location_of_ordinal(ord)),
        cost: 0,
        owned_by_player_number: None::<usize>,
        houses: 0,
        hotels: 0,
        effect: LandingEffect::NoOp,
    }
}

} // verus!
