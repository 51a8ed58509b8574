use monopoly::{LandingEffect, LocationEnum, LocationTypeEnum, Player, Properties, Property};
use monopoly::GameError;

#[test]
fn ordinal_round_trip_all_squares() {
    for n in 1..=40usize {
        let location = LocationEnum::from_ordinal(n).unwrap();
        assert_eq!(location.ordinal(), n);
    }
}

#[test]
fn from_ordinal_rejects_out_of_range() {
    assert!(LocationEnum::from_ordinal(0).is_none());
    assert!(LocationEnum::from_ordinal(41).is_none());
    assert!(LocationEnum::from_ordinal(100).is_none());
}

#[test]
fn ordinals_follow_board_order() {
    assert_eq!(LocationEnum::Go.ordinal(), 1);
    assert_eq!(LocationEnum::BalticAvenue.ordinal(), 4);
    assert_eq!(LocationEnum::Jail.ordinal(), 11);
    assert_eq!(LocationEnum::VirginiaAvenue.ordinal(), 15);
    assert_eq!(LocationEnum::PennsylvaniaRailroad.ordinal(), 16);
    assert_eq!(LocationEnum::Boardwalk.ordinal(), 40);
}

#[test]
fn location_types_follow_board_table() {
    assert_eq!(LocationEnum::Go.get_location_type(), LocationTypeEnum::Go);
    assert_eq!(LocationEnum::IncomeTax.get_location_type(), LocationTypeEnum::Tax);
    assert_eq!(LocationEnum::Jail.get_location_type(), LocationTypeEnum::Jail);
    assert_eq!(LocationEnum::FreeParking.get_location_type(), LocationTypeEnum::Neutral);
    assert_eq!(LocationEnum::GoToJail.get_location_type(), LocationTypeEnum::Neutral);
    assert_eq!(LocationEnum::ElectricCompany.get_location_type(), LocationTypeEnum::Utility);
    assert_eq!(LocationEnum::ShortLine.get_location_type(), LocationTypeEnum::Railroad);
    assert_eq!(LocationEnum::Chance2.get_location_type(), LocationTypeEnum::Chance);
    assert_eq!(
        LocationEnum::CommunityChest3.get_location_type(),
        LocationTypeEnum::CommunityChest
    );
    assert_eq!(LocationEnum::Boardwalk.get_location_type(), LocationTypeEnum::Property);
}

#[test]
fn registry_initializes_forty_squares() {
    let registry = Properties::get_new_list();
    assert_eq!(registry.list.len(), 40);
    for (i, square) in registry.list.iter().enumerate() {
        assert_eq!(square.location.ordinal(), i + 1);
        assert_eq!(square.location_type, square.location.get_location_type());
        assert_eq!(square.cost, 0);
        assert_eq!(square.owned_by_player_number, None);
        assert_eq!(square.houses, 0);
        assert_eq!(square.hotels, 0);
    }
}

#[test]
fn registry_lookup_finds_each_square() {
    let mut registry = Properties::get_new_list();
    for n in 1..=40usize {
        let location = LocationEnum::from_ordinal(n).unwrap();
        let square = registry.get_property(location).unwrap();
        assert_eq!(square.location, location);
    }
}

#[test]
fn registry_lookup_fails_past_registered_squares() {
    let mut registry = Properties { list: Vec::new() };
    registry.add(Property::new(
        LocationEnum::Go,
        LocationTypeEnum::Go,
        0,
        LandingEffect::NoOp,
    ));
    assert_eq!(registry.list.len(), 1);
    assert!(registry.get_property(LocationEnum::Go).is_ok());
    let missing = registry.get_property(LocationEnum::Boardwalk);
    assert_eq!(missing.unwrap_err(), GameError::SquareNotFound);
}

#[test]
fn landing_effect_is_noop_success() {
    let square = Property::new(
        LocationEnum::MediterraneanAvenue,
        LocationTypeEnum::Property,
        0,
        LandingEffect::NoOp,
    );
    let mut player = Player::new(1);
    let outcome = square.run_fn(&mut player);
    assert!(outcome);
    assert_eq!(player.cash, 1500);
    assert_eq!(player.current_location, LocationEnum::Go);
    assert_eq!(player.is_in_jail, false);
}
