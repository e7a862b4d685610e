//! The keys the game listens to, and what each of them stands for.

use crate::direction::Direction;
use vstd::prelude::*;

verus! {

/// A pressed key. The ten digits exist twice, on the number row (`D0` to
/// `D9`) and on the number pad; every key the game has no use for is
/// `Other`.
#[derive(Clone, Copy, Debug, PartialEq, Eq, Structural)]
pub enum Key {
    D0,
    D1,
    D2,
    D3,
    D4,
    D5,
    D6,
    D7,
    D8,
    D9,
    NumPad0,
    NumPad1,
    NumPad2,
    NumPad3,
    NumPad4,
    NumPad5,
    NumPad6,
    NumPad7,
    NumPad8,
    NumPad9,
    Up,
    Down,
    Left,
    Right,
    Other,
}

impl Key {
    /// The digit printed on the key, if it is a digit key of either family.
    pub open spec fn digit(self) -> Option<int> {
        match self {
            Key::D0 | Key::NumPad0 => Some(0),
            Key::D1 | Key::NumPad1 => Some(1),
            Key::D2 | Key::NumPad2 => Some(2),
            Key::D3 | Key::NumPad3 => Some(3),
            Key::D4 | Key::NumPad4 => Some(4),
            Key::D5 | Key::NumPad5 => Some(5),
            Key::D6 | Key::NumPad6 => Some(6),
            Key::D7 | Key::NumPad7 => Some(7),
            Key::D8 | Key::NumPad8 => Some(8),
            Key::D9 | Key::NumPad9 => Some(9),
            _ => None,
        }
    }

    /// The difficulty that the key selects: its digit, with 0 standing for
    /// level 10. Keys without a digit select nothing.
    pub open spec fn difficulty(self) -> Option<int> {
        match self.digit() {
            Some(d) => Some(if d == 0 { 10 } else { d }),
            None => None,
        }
    }

    /// The direction that the key commands, if it is an arrow key.
    pub open spec fn direction(self) -> Option<Direction> {
        match self {
            Key::Up => Some(Direction::Up),
            Key::Down => Some(Direction::Down),
            Key::Left => Some(Direction::Left),
            Key::Right => Some(Direction::Right),
            _ => None,
        }
    }
}

/// The difficulty level that `key` selects, if it selects one.
pub fn difficulty_for_key(key: Key) -> (r: Option<i32>)
    ensures
        r is Some == key.difficulty() is Some,
        r matches Some(d) ==> key.difficulty() == Some(d as int),
{
    match key {
        Key::NumPad1 | Key::D1 => Some(1),
        Key::NumPad2 | Key::D2 => Some(2),
        Key::NumPad3 | Key::D3 => Some(3),
        Key::NumPad4 | Key::D4 => Some(4),
        Key::NumPad5 | Key::D5 => Some(5),
        Key::NumPad6 | Key::D6 => Some(6),
        Key::NumPad7 | Key::D7 => Some(7),
        Key::NumPad8 | Key::D8 => Some(8),
        Key::NumPad9 | Key::D9 => Some(9),
        Key::NumPad0 | Key::D0 => Some(10),
        _ => None,
    }
}

/// The direction that `key` commands, if it is an arrow key.
pub fn direction_for_key(key: Key) -> (r: Option<Direction>)
    ensures
        r == key.direction(),
{
    match key {
        Key::Up => Some(Direction::Up),
        Key::Down => Some(Direction::Down),
        Key::Left => Some(Direction::Left),
        Key::Right => Some(Direction::Right),
        _ => None,
    }
}

/// Every difficulty that a key can select is a level from 1 to 10, and two
/// keys with the same digit select the same level.
pub proof fn key_difficulty_is_a_level(a: Key, b: Key)
    ensures
        a.difficulty() matches Some(d) ==> 1 <= d <= 10,
        a.digit() is Some && a.digit() == b.digit() ==> a.difficulty() == b.difficulty(),
{
}

} // verus!
