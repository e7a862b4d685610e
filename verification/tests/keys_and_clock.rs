use snake_game::clock::{exceeds, BASE_MOVING_PERIOD, RESTART_TIME};
use snake_game::direction::Direction;
use snake_game::game::Game;
use snake_game::keys::{difficulty_for_key, direction_for_key, Key};

const ROW: [Key; 10] = [
    Key::D0,
    Key::D1,
    Key::D2,
    Key::D3,
    Key::D4,
    Key::D5,
    Key::D6,
    Key::D7,
    Key::D8,
    Key::D9,
];

const PAD: [Key; 10] = [
    Key::NumPad0,
    Key::NumPad1,
    Key::NumPad2,
    Key::NumPad3,
    Key::NumPad4,
    Key::NumPad5,
    Key::NumPad6,
    Key::NumPad7,
    Key::NumPad8,
    Key::NumPad9,
];

fn period_at(level_key: Key) -> u64 {
    let mut game = Game::new(30, 30);
    game.key_pressed(level_key);
    game.get_moving_period()
}

#[test]
fn digit_keys_select_their_digit_and_nought_selects_ten() {
    for digit in 0..10usize {
        let level = if digit == 0 { 10 } else { digit as i32 };
        assert_eq!(difficulty_for_key(ROW[digit]), Some(level));
        assert_eq!(difficulty_for_key(PAD[digit]), Some(level));
    }
}

#[test]
fn keys_without_a_digit_select_no_difficulty() {
    for &key in &[Key::Up, Key::Down, Key::Left, Key::Right, Key::Other] {
        assert_eq!(difficulty_for_key(key), None);
    }
}

#[test]
fn arrow_keys_command_their_direction_and_no_other_key_does() {
    assert_eq!(direction_for_key(Key::Up), Some(Direction::Up));
    assert_eq!(direction_for_key(Key::Down), Some(Direction::Down));
    assert_eq!(direction_for_key(Key::Left), Some(Direction::Left));
    assert_eq!(direction_for_key(Key::Right), Some(Direction::Right));
    assert_eq!(direction_for_key(Key::Other), None);
    for digit in 0..10usize {
        assert_eq!(direction_for_key(ROW[digit]), None);
        assert_eq!(direction_for_key(PAD[digit]), None);
    }
}

#[test]
fn moving_period_is_three_tenths_of_a_second_at_level_one() {
    assert_eq!(period_at(Key::D1), 300_000_000);
    let seconds = period_at(Key::D1) as f64 / 1e9;
    assert!((seconds - 0.3).abs() < 1e-9);
}

#[test]
fn moving_period_is_three_hundredths_of_a_second_at_level_ten() {
    assert_eq!(period_at(Key::D0), 30_000_000);
    let seconds = period_at(Key::D0) as f64 / 1e9;
    assert!((seconds - 0.03).abs() < 1e-9);
}

#[test]
fn moving_period_follows_the_linear_formula_and_shrinks_level_by_level() {
    let mut last = u64::MAX;
    for level in 1..=10u64 {
        let period = period_at(ROW[(level % 10) as usize]);
        assert_eq!(period, BASE_MOVING_PERIOD * (11 - level) / 10);
        let seconds = period as f64 / 1e9;
        assert!((seconds - 0.3 * (11.0 - level as f64) / 10.0).abs() < 1e-9);
        assert!(period < last);
        last = period;
    }
}

#[test]
fn moving_period_of_a_new_game_is_that_of_level_five() {
    let game = Game::new(30, 30);
    assert_eq!(game.difficulty(), 5);
    assert_eq!(game.get_moving_period(), 180_000_000);
}

#[test]
fn clock_constants_are_in_nanoseconds() {
    assert_eq!(BASE_MOVING_PERIOD, 300_000_000);
    assert_eq!(RESTART_TIME, 1_000_000_000);
}

#[test]
fn exceeds_is_strict_and_does_not_overflow() {
    assert!(!exceeds(0, 300, 300));
    assert!(exceeds(0, 301, 300));
    assert!(exceeds(1, 300, 300));
    assert!(!exceeds(100, 200, 300));
    assert!(exceeds(301, 0, 300));
    assert!(exceeds(u64::MAX, u64::MAX, 300));
    assert!(exceeds(1, u64::MAX, u64::MAX));
    assert!(!exceeds(0, u64::MAX, u64::MAX));
}
