//! Directions of travel on the grid and the cell one step away.

use vstd::prelude::*;

verus! {

/// One of the four ways the snake can travel. `y` grows downwards.
#[derive(Clone, Copy, Debug, PartialEq, Eq, Structural)]
pub enum Direction {
    Up,
    Down,
    Left,
    Right,
}

impl Direction {
    /// The direction that points the other way.
    pub open spec fn spec_opposite(&self) -> Direction {
        match *self {
            Direction::Up => Direction::Down,
            Direction::Down => Direction::Up,
            Direction::Left => Direction::Right,
            Direction::Right => Direction::Left,
        }
    }

    /// The direction that points the other way.
    #[verifier::when_used_as_spec(spec_opposite)]
    pub fn opposite(&self) -> (r: Direction)
        ensures
            r == self.spec_opposite(),
    {
        match *self {
            Direction::Up => Direction::Down,
            Direction::Down => Direction::Up,
            Direction::Left => Direction::Right,
            Direction::Right => Direction::Left,
        }
    }
}

/// The cell one step from `cell` in direction `dir`.
pub open spec fn step(cell: (int, int), dir: Direction) -> (int, int) {
    match dir {
        Direction::Up => (cell.0, cell.1 - 1),
        Direction::Down => (cell.0, cell.1 + 1),
        Direction::Left => (cell.0 - 1, cell.1),
        Direction::Right => (cell.0 + 1, cell.1),
    }
}

/// Opposite directions come in pairs: turning round twice changes nothing,
/// and no direction is its own opposite.
pub proof fn opposite_is_an_involution(dir: Direction)
    ensures
        dir.opposite().opposite() == dir,
        dir.opposite() != dir,
{
}

/// A step always leaves the cell it starts from, and a step back returns to it.
pub proof fn step_moves_and_returns(cell: (int, int), dir: Direction)
    ensures
        step(cell, dir) != cell,
        step(step(cell, dir), dir.opposite()) == cell,
{
}

} // verus!
