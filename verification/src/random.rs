//! The source of randomness.

use rand::Rng;
use vstd::prelude::*;

verus! {

/// Draws an integer from the half-open interval `[low, high)`.
///
/// Calls `rand::Rng::gen_range` on the generator that `rand::thread_rng`
/// hands out. The contract claims of it only what holds of every draw: the
/// value lies in the interval. `gen_range` panics on an empty interval, which
/// the precondition rules out. Nothing is claimed about which value comes
/// out, nor that two draws agree. The generator panics where the operating
/// system cannot seed it, on first use or when it reseeds itself; no
/// argument decides that.
#[verifier::external_body]
pub(crate) fn uniform(low: i32, high: i32) -> (value: i32)
    requires
        low < high,
    ensures
        low <= value < high,
{
    rand::thread_rng().gen_range(low..high)
}

} // verus!
