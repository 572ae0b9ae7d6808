use monopoly_abm::config::Property;
use monopoly_abm::locations::BoardLocationName;
use monopoly_abm::monopoly::MonopolyState;
use monopoly_abm::player::Player;
use monopoly_abm::state::State;

#[test]
fn a_new_game_has_everyone_on_go() {
    let players = Player::create_players(3);
    let state = MonopolyState::new(3, vec![], players.iter().collect());
    assert_eq!(state.free_parking(), 0);
    assert_eq!(state.cycles(), 0);
    for id in 1..=3 {
        assert_eq!(state.position_of(id), Some(BoardLocationName::Go));
    }
    assert_eq!(state.position_of(0), None);
    assert_eq!(state.position_of(4), None);
}

#[test]
fn a_game_without_players_has_no_positions() {
    let state = MonopolyState::new(0, vec![], vec![]);
    assert_eq!(state.position_of(1), None);
}

#[test]
fn updating_counts_the_cycles() {
    let mut state = MonopolyState::new(2, vec![], vec![]);
    state.update();
    state.update();
    state.update();
    assert_eq!(state.cycles(), 3);
    assert_eq!(state.free_parking(), 0);
    assert_eq!(state.position_of(2), Some(BoardLocationName::Go));
}

#[test]
fn the_configuration_is_carried_as_given() {
    let property = Property::new(BoardLocationName::VineStreet, 300, 50, 100, 200);
    assert_eq!(property.location, BoardLocationName::VineStreet);
    assert_eq!(property.tile_cost, 300);
    assert_eq!(property.charge, 50);
    assert_eq!(property.house_cost, 100);
    assert_eq!(property.hotel_cost, 200);
    let state = MonopolyState::new(1, vec![property], vec![]);
    assert_eq!(state.cycles(), 0);
}
