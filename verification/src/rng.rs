//! Trusted boundary to the `fastrand` random number generator.  Each
//! worker owns one generator exclusively; nothing is assumed of a draw
//! beyond its range.

use vstd::prelude::*;

verus! {

#[verifier::external_type_specification]
#[verifier::external_body]
pub struct ExRng(fastrand::Rng);

/// Relies on fastrand::Rng::usize on the range `0..bound`: the result is
/// always below the bound.  The draw is random, so nothing more is stated.
#[verifier::external_body]
pub(crate) fn rng_usize(rng: &mut fastrand::Rng, bound: usize) -> (r: usize)
    requires
        bound > 0,
    ensures
        r < bound,
{
    rng.usize(..bound)
}

} // verus!
