//! The random source behind the failure-injection route.

use rand::Rng;
use vstd::prelude::*;

verus! {

/// Denominator of every chance: chances are given in hundredths.
pub const HUNDRED: u32 = 100;

/// The chance of failure, in hundredths, that `percent` asks for: `percent`
/// itself up to 100, and 100 for everything above.
pub open spec fn failure_chance(percent: u32) -> u32 {
    if percent > HUNDRED {
        HUNDRED
    } else {
        percent
    }
}

/// Computes [`failure_chance`].
pub fn clamp_percent(percent: u32) -> (chance: u32)
    ensures
        chance == failure_chance(percent),
{
    if percent > HUNDRED {
        HUNDRED
    } else {
        percent
    }
}

/// One Bernoulli trial, drawn by `rand::Rng::gen_ratio` on the generator
/// that `rand::thread_rng` hands to the calling thread.
///
/// Trusted, not proved: a numerator of zero never hits, and a numerator
/// equal to the denominator always hits, as `gen_ratio` documents. In
/// between the result is up to chance and nothing is claimed of it.
/// `gen_ratio` panics on a zero denominator and on a numerator above the
/// denominator, so both are required away. `thread_rng` panics where the
/// operating system has no seed to give; that is up to the machine and no
/// argument can rule it out.
#[verifier::external_body]
pub(crate) fn draw_ratio(numerator: u32, denominator: u32) -> (hit: bool)
    requires
        0 < denominator,
        numerator <= denominator,
    ensures
        numerator == 0 ==> !hit,
        numerator == denominator ==> hit,
{
    rand::thread_rng().gen_ratio(numerator, denominator)
}

} // verus!
