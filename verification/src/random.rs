//! The one source of chance in the game.

use rand::Rng;
use vstd::prelude::*;

verus! {

/// Draws a coordinate from `low..high`.
///
/// Trusted, not proved: this calls `rand::Rng::gen_range` on the generator
/// that `rand::thread_rng` returns. That method is documented to return a
/// value in the range it is given and to panic on an empty range, so the
/// empty range is left out and the result is claimed to lie in the range.
/// Nothing is claimed about which value comes back.
#[verifier::external_body]
pub(crate) fn random_coordinate(low: i32, high: i32) -> (r: i32)
    requires
        low < high,
    ensures
        low <= r < high,
{
    rand::thread_rng().gen_range(low..high)
}

} // verus!
