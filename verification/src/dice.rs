use vstd::prelude::*;
use rand::Rng;

verus! {

/// Relies on rand's `thread_rng` and `Rng::gen_range`: on a non-empty
/// inclusive range the sampled value lies within the range; on an empty
/// range the call panics, so that case is excluded.
#[verifier::external_body]
fn sample_inclusive(lo: u8, hi: u8) -> (r: u8)
    requires
        lo <= hi,
    ensures
        lo <= r <= hi,
{
    rand::thread_rng().gen_range(lo..=hi)
}

/// Rolls a die with the given number of sides; the result is a pip count
/// between 1 and `sides`. A die needs at least one side.
pub fn roll_dice(sides: u8) -> (r: u8)
    requires
        sides >= 1,
    ensures
        1 <= r <= sides,
{
    sample_inclusive(1, sides)
}

} // verus!
