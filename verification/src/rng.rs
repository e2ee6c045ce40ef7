//! The one place the library touches a random number generator. Autonomous
//! agents draw their wandering decisions from here; everything downstream of
//! a draw is verified for every value the draw can produce.
use vstd::prelude::*;

verus! {

/// Relies on rand::Rng::gen_range over `start..end`: a uniform draw from the
/// half-open range. It panics on an empty range, so the range must be
/// non-empty here.
#[verifier::external_body]
pub(crate) fn random(start: i32, end: i32) -> (r: i32)
    requires
        start < end,
    ensures
        start <= r < end,
{
    let mut rng = rand::thread_rng();
    rand::Rng::gen_range(&mut rng, start..end)
}

/// A biased coin: nothing can be promised of the outcome beyond that it is
/// one of the two.
pub(crate) fn chance(percent: u8) -> bool {
    let roll: i32 = random(1, 101);
    roll < percent as i32
}

} // verus!
