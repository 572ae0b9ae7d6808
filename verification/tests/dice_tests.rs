use monopoly_abm::dice::{roll_game_dice, DiceSource, RollState, ScriptedDice};

#[test]
fn test_check_rolling_works() {
    let mut r = rand::thread_rng();

    for _ in 0..=1000 {
        let the_roll = roll_game_dice(&mut r);
        assert!(the_roll.value <= 12 && the_roll.value > 1);
    }
}

#[test]
fn thread_dice_show_more_than_one_face() {
    let mut r = rand::thread_rng();
    let mut seen = [false; 7];
    for _ in 0..2000 {
        let face = r.draw(6);
        assert!((1..=6).contains(&face));
        seen[face] = true;
    }
    assert!(seen[1..=6].iter().filter(|s| **s).count() > 1);
}

#[test]
fn thread_rolls_are_not_all_the_highest() {
    let mut r = rand::thread_rng();
    let mut below_twelve = false;
    for _ in 0..1000 {
        let roll = roll_game_dice(&mut r);
        assert_eq!(roll.is_double && roll.value % 2 == 1, false);
        if roll.value < 12 {
            below_twelve = true;
        }
    }
    assert!(below_twelve);
}

#[test]
fn thread_card_draws_stay_in_the_deck() {
    let mut r = rand::thread_rng();
    for _ in 0..1000 {
        assert!((1..=16).contains(&r.draw(16)));
        assert!((1..=14).contains(&r.draw(14)));
        assert_eq!(r.draw(1), 1);
    }
}

#[test]
fn forced_three_three_is_a_double() {
    let mut dice = ScriptedDice::new(vec![3, 3]);
    let roll = roll_game_dice(&mut dice);
    assert_eq!(roll.value, 6);
    assert!(roll.is_double);
}

#[test]
fn forced_three_four_is_no_double() {
    let mut dice = ScriptedDice::new(vec![3, 4]);
    let roll = roll_game_dice(&mut dice);
    assert_eq!(roll.value, 7);
    assert!(!roll.is_double);
}

#[test]
fn even_value_need_not_be_a_double() {
    let mut dice = ScriptedDice::new(vec![2, 4]);
    let roll = roll_game_dice(&mut dice);
    assert_eq!(roll.value, 6);
    assert!(!roll.is_double);
}

#[test]
fn every_pair_of_faces_gives_sum_and_double() {
    for first in 1..=6usize {
        for second in 1..=6usize {
            let roll = RollState::from_draws(first, second);
            assert_eq!(roll.value, first + second);
            assert_eq!(roll.is_double, first == second);
            assert!(roll.value >= 2 && roll.value <= 12);

            let mut dice = ScriptedDice::new(vec![first, second]);
            assert_eq!(roll_game_dice(&mut dice), roll);
        }
    }
}

#[test]
fn lowest_and_highest_rolls() {
    let mut dice = ScriptedDice::new(vec![1, 1, 6, 6]);
    assert_eq!(roll_game_dice(&mut dice), RollState { value: 2, is_double: true });
    assert_eq!(roll_game_dice(&mut dice), RollState { value: 12, is_double: true });
}

#[test]
fn default_roll_is_empty() {
    let roll = RollState::default();
    assert_eq!(roll.value, 0);
    assert!(roll.is_double);
}

#[test]
fn adding_two_dice() {
    let four = RollState { value: 4, is_double: true };
    let five = RollState { value: 5, is_double: true };
    assert_eq!(four + five, RollState { value: 9, is_double: false });
    assert_eq!(four + four, RollState { value: 8, is_double: true });
}

#[test]
fn scripted_dice_replay_in_order() {
    let mut dice = ScriptedDice::new(vec![5, 2, 6]);
    assert_eq!(dice.faces_left(), 3);
    assert_eq!(dice.draw(6), 5);
    assert_eq!(dice.draw(6), 2);
    assert_eq!(dice.faces_left(), 1);
    assert_eq!(dice.draw(6), 6);
    assert_eq!(dice.faces_left(), 0);
}

#[test]
fn scripted_dice_fit_the_face_to_the_die() {
    let mut dice = ScriptedDice::new(vec![0, 9, 16, 17]);
    assert_eq!(dice.draw(6), 1);
    assert_eq!(dice.draw(6), 6);
    assert_eq!(dice.draw(16), 16);
    assert_eq!(dice.draw(16), 16);
}

#[test]
fn scripted_dice_show_one_when_exhausted() {
    let mut dice = ScriptedDice::new(vec![]);
    assert_eq!(dice.draw(6), 1);
    assert_eq!(dice.draw(16), 1);
    assert_eq!(dice.faces_left(), 0);
    assert_eq!(roll_game_dice(&mut dice), RollState { value: 2, is_double: true });
}

#[test]
fn a_roll_takes_exactly_two_faces_in_order() {
    let mut dice = ScriptedDice::new(vec![2, 5, 5, 2, 4]);
    assert_eq!(roll_game_dice(&mut dice), RollState { value: 7, is_double: false });
    assert_eq!(dice.faces_left(), 3);
    assert_eq!(roll_game_dice(&mut dice), RollState { value: 7, is_double: false });
    assert_eq!(dice.faces_left(), 1);
    // One face is left: the second die finds the script used up and shows 1.
    assert_eq!(roll_game_dice(&mut dice), RollState { value: 5, is_double: false });
    assert_eq!(dice.faces_left(), 0);
}

#[test]
fn a_roll_does_not_use_one_face_twice() {
    let mut dice = ScriptedDice::new(vec![4, 1]);
    let roll = roll_game_dice(&mut dice);
    assert_eq!(roll.value, 5);
    assert!(!roll.is_double);
}
