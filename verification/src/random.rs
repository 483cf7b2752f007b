//! The library's one source of randomness.
//!
//! Random cells for a random initial row and the random fallback rule are
//! both uniform draws below a bound, so a single wrapper serves them all.

use vstd::prelude::*;
use rand::Rng;

verus! {

/// Relies on rand's `thread_rng().gen_range` on the range `0..bound`: the
/// sample lies in the range given, and only an empty range makes the call
/// panic. Nothing more is assumed of a random draw.
#[verifier::external_body]
pub(crate) fn random_below(bound: u32) -> (sample: u32)
    requires
        bound >= 1,
    ensures
        sample < bound,
{
    rand::thread_rng().gen_range(0..bound)
}

} // verus!
