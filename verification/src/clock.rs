//! Simulated time. The game counts time in whole nanoseconds and never
//! reads a clock: the driver says how much time has passed.

use vstd::prelude::*;

verus! {

/// The time between two steps of the snake at the lowest speed, in
/// nanoseconds: three tenths of a second.
pub const BASE_MOVING_PERIOD: u64 = 300_000_000;

/// How long a finished round stays on the board before the next one
/// starts, in nanoseconds: one second.
pub const RESTART_TIME: u64 = 1_000_000_000;

/// The time between two steps of the snake at a difficulty level, in
/// nanoseconds: the base period times `11 - difficulty`, over ten.
pub open spec fn moving_period(difficulty: int) -> int {
    BASE_MOVING_PERIOD * (11 - difficulty) / 10
}

/// Whether `waited + delta` is more than `limit`, computed without
/// overflow.
pub fn exceeds(waited: u64, delta: u64, limit: u64) -> (r: bool)
    ensures
        r == (waited + delta > limit),
{
    waited > limit || delta > limit - waited
}

/// The moving period runs from three tenths of a second at level 1 down to
/// three hundredths at level 10, and each level is faster than the one
/// before it.
pub proof fn moving_period_shrinks_with_difficulty(slower: int, faster: int)
    requires
        1 <= slower < faster <= 10,
    ensures
        moving_period(1) == 300_000_000,
        moving_period(10) == 30_000_000,
        moving_period(slower) > moving_period(faster),
        0 < moving_period(faster) <= moving_period(slower) <= BASE_MOVING_PERIOD,
{
}

} // verus!
