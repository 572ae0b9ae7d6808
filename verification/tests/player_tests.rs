use monopoly_abm::player::{Player, JAIL_BAIL, STARTING_BALANCE};
use monopoly_abm::token::Token;

#[test]
fn test_create_players() {
    let players = Player::create_players(3);
    let player_one = &players[0];

    assert!(player_one.id == 1 && player_one.token == Token::Iron);
}

#[test]
fn is_player_in_jail() {
    let mut gamer_one = Player::new(1);
    assert!(gamer_one.is_active());
    assert!(!gamer_one.in_jail());

    gamer_one.go_to_jail();
    assert!(gamer_one.in_jail());
}

#[test]
fn purchasing_a_property() {
    let mut gamer_two = Player::new(2);
    assert!(gamer_two.is_active());
    assert!(gamer_two.can_afford(100));

    gamer_two.pay(1000);
    assert!(gamer_two.is_active());
    assert_eq!(gamer_two.current_balance(), 500);

    gamer_two.pay(1000);
    assert!(!gamer_two.is_active());
}

#[test]
fn jail_sequence_with_double() {
    let mut gamer_three = Player::new(2);
    let balance = gamer_three.current_balance();
    assert!(!gamer_three.in_jail());

    gamer_three.go_to_jail();
    assert!(gamer_three.in_jail());

    gamer_three.update_jail(false, 30); // #1
    assert!(gamer_three.in_jail());

    gamer_three.update_jail(false, 30); // #2
    assert!(gamer_three.in_jail());

    gamer_three.update_jail(true, 30); // #3
    assert!(!gamer_three.in_jail());
    assert_eq!(gamer_three.current_balance(), balance);
}

#[test]
fn jail_sequence_with_no_double() {
    let mut gamer_three = Player::new(2);
    let balance = gamer_three.current_balance();
    assert!(!gamer_three.in_jail());

    gamer_three.go_to_jail();
    assert!(gamer_three.in_jail());

    gamer_three.update_jail(false, 30); // #1
    assert!(gamer_three.in_jail());

    gamer_three.update_jail(false, 30); // #2
    assert!(gamer_three.in_jail());

    gamer_three.update_jail(false, 30); // #3
    assert!(!gamer_three.in_jail());
    assert_eq!(gamer_three.current_balance(), balance - 30);
}

#[test]
fn new_player_starts_on_go_with_full_purse() {
    let player = Player::new(7);
    assert_eq!(player.id, 7);
    assert_eq!(player.token, Token::Battleship);
    assert_eq!(player.current_position(), 0);
    assert_eq!(player.current_balance(), 1500);
    assert_eq!(STARTING_BALANCE, 1500);
    assert!(player.is_active());
    assert!(!player.in_jail());
    assert!(!player.has_jail_card());
    assert_eq!(player.count_properties(), (0, 0));
    assert_eq!(player.state.go_count, 0);
    assert_eq!(player.state.jail_count, 0);
    assert_eq!(player.state.jail, None);
}

#[test]
fn created_players_are_numbered_from_one() {
    let players = Player::create_players(12);
    assert_eq!(players.len(), 12);
    for (i, player) in players.iter().enumerate() {
        assert_eq!(player.id, i + 1);
        assert_eq!(player.token, Token::value_to_enum(i + 1));
        assert_eq!(player.current_balance(), 1500);
        assert_eq!(player.current_position(), 0);
    }
    assert_eq!(players[9].token, Token::Boot);
    assert_eq!(players[11].token, Token::Boot);
    assert!(Player::create_players(0).is_empty());
}

#[test]
fn every_identity_has_its_token() {
    let expected = [
        Token::Boot,
        Token::Iron,
        Token::Terrier,
        Token::Horse,
        Token::TopHat,
        Token::Cannon,
        Token::Wheelbarrow,
        Token::Battleship,
        Token::Thimble,
        Token::Car,
        Token::Boot,
        Token::Boot,
    ];
    for (value, token) in expected.iter().enumerate() {
        assert_eq!(Token::value_to_enum(value), *token);
    }
    assert_eq!(Token::value_to_enum(usize::MAX), Token::Boot);
}

#[test]
fn paying_the_whole_balance_bankrupts() {
    let mut player = Player::new(1);
    player.pay(500);
    assert_eq!(player.current_balance(), 1000);
    assert!(player.is_active());

    player.pay(1000);
    assert!(!player.is_active());
    assert_eq!(player.current_balance(), 1000);
}

#[test]
fn paying_all_but_one_is_survivable() {
    let mut player = Player::new(1);
    assert!(player.can_afford(1499));
    assert!(!player.can_afford(1500));
    assert!(!player.can_afford(1501));
    assert!(player.can_afford(0));

    player.pay(1499);
    assert!(player.is_active());
    assert_eq!(player.current_balance(), 1);

    assert!(!player.can_afford(1));
    player.pay(1);
    assert!(!player.is_active());
    assert_eq!(player.current_balance(), 1);
}

#[test]
fn paying_more_than_the_balance_bankrupts_and_keeps_it() {
    let mut player = Player::new(1);
    player.pay(usize::MAX);
    assert!(!player.is_active());
    assert_eq!(player.current_balance(), 1500);
}

#[test]
fn deposit_does_not_ask_whether_the_player_is_active() {
    let mut player = Player::new(1);
    player.deposit(200);
    assert_eq!(player.current_balance(), 1700);
    player.pay(5000);
    assert!(!player.is_active());
    player.deposit(50);
    assert_eq!(player.current_balance(), 1750);
    assert!(!player.is_active());
}

#[test]
fn moving_adds_steps_without_wrapping() {
    let mut player = Player::new(1);
    assert_eq!(player.move_position(12), 12);
    assert_eq!(player.move_position(30), 42);
    assert_eq!(player.current_position(), 42);
    assert_eq!(player.move_position(0), 42);
}

#[test]
fn going_to_jail_counts_the_visit_and_then_the_attempts() {
    let mut player = Player::new(1);
    assert_eq!(player.go_to_jail(), 0);
    assert_eq!(player.state.jail, Some(0));
    assert_eq!(player.state.jail_count, 1);

    assert_eq!(player.go_to_jail(), 1);
    assert_eq!(player.go_to_jail(), 2);
    assert_eq!(player.state.jail, Some(2));
    assert_eq!(player.state.jail_count, 1);

    player.get_out_of_jail();
    assert_eq!(player.state.jail, None);
    assert_eq!(player.go_to_jail(), 0);
    assert_eq!(player.state.jail_count, 2);
}

#[test]
fn leaving_jail_uses_up_the_card() {
    let mut player = Player::new(1);
    player.jail_card();
    assert!(player.has_jail_card());
    player.go_to_jail();
    player.get_out_of_jail();
    assert!(!player.in_jail());
    assert!(!player.has_jail_card());
}

#[test]
fn a_free_player_is_untouched_by_an_attempt_to_leave() {
    let mut player = Player::new(1);
    player.jail_card();

    player.update_jail(true, JAIL_BAIL);
    player.update_jail(false, JAIL_BAIL);
    assert!(!player.in_jail());
    assert!(player.has_jail_card());
    assert_eq!(player.state.jail_count, 0);
    assert_eq!(player.current_balance(), 1500);
}

#[test]
fn leaving_jail_takes_the_card_from_a_free_player_too() {
    let mut player = Player::new(1);
    player.jail_card();
    player.move_position(7);
    player.add_house();

    player.get_out_of_jail();
    assert!(!player.in_jail());
    assert!(!player.has_jail_card());
    assert_eq!(player.current_balance(), 1500);
    assert_eq!(player.current_position(), 7);
    assert!(player.is_active());
    assert_eq!(player.state.jail_count, 0);
    assert_eq!(player.count_properties(), (1, 0));

    player.get_out_of_jail();
    assert!(!player.in_jail());
    assert!(!player.has_jail_card());
    assert_eq!(player.current_balance(), 1500);
    assert_eq!(player.current_position(), 7);
}

#[test]
fn leaving_jail_keeps_everything_but_the_stay_and_the_card() {
    let mut player = Player::new(1);
    player.go_to_jail();
    player.go_to_jail();
    player.get_out_of_jail();
    assert!(!player.in_jail());
    assert!(!player.has_jail_card());
    assert_eq!(player.state.jail_count, 1);
    assert_eq!(player.current_balance(), 1500);
    assert!(player.is_active());
}

#[test]
fn a_double_releases_on_the_first_attempt() {
    let mut player = Player::new(1);
    player.go_to_jail();
    player.update_jail(true, JAIL_BAIL);
    assert!(!player.in_jail());
    assert_eq!(player.current_balance(), 1500);
    assert!(player.is_active());
}

#[test]
fn a_jail_card_releases_without_a_double_and_is_spent() {
    let mut player = Player::new(1);
    player.jail_card();
    player.go_to_jail();
    player.update_jail(false, JAIL_BAIL);
    assert!(!player.in_jail());
    assert!(!player.has_jail_card());
    assert_eq!(player.current_balance(), 1500);
}

#[test]
fn the_third_failure_charges_the_default_bail() {
    let mut player = Player::new(1);
    player.go_to_jail();
    player.update_jail(false, JAIL_BAIL);
    assert_eq!(player.state.jail, Some(1));
    player.update_jail(false, JAIL_BAIL);
    assert_eq!(player.state.jail, Some(2));
    assert_eq!(player.current_balance(), 1500);
    player.update_jail(false, JAIL_BAIL);
    assert_eq!(player.state.jail, None);
    assert_eq!(player.current_balance(), 1450);
    assert_eq!(JAIL_BAIL, 50);
}

#[test]
fn a_bail_that_cannot_be_paid_bankrupts_and_still_releases() {
    let mut player = Player::new(1);
    player.pay(1460);
    assert_eq!(player.current_balance(), 40);
    player.go_to_jail();
    player.update_jail(false, JAIL_BAIL);
    player.update_jail(false, JAIL_BAIL);
    player.update_jail(false, JAIL_BAIL);
    assert!(!player.in_jail());
    assert!(!player.is_active());
    assert_eq!(player.current_balance(), 40);
}

#[test]
fn houses_and_hotels_are_counted() {
    let mut player = Player::new(1);
    player.add_house();
    player.add_house();
    player.add_hotel();
    assert_eq!(player.count_properties(), (2, 1));
}
