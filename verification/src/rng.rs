//! The library's one source of chance.
//!
//! Spawn placement, initial speeds, spin and effect jitter all sample
//! through this single wrapper, so every caller reasons only from the
//! bounds that hold of any outcome.

use rand::Rng;
use vstd::prelude::*;

verus! {

/// Relies on rand's `Rng::gen_range` over an inclusive range, which
/// panics only on an empty range and otherwise returns a value within it.
/// Nothing more is claimed: the draw is chance.
#[verifier::external_body]
pub(crate) fn random_in_range(lo: i64, hi: i64) -> (r: i64)
    requires
        lo <= hi,
    ensures
        lo <= r <= hi,
{
    rand::thread_rng().gen_range(lo..=hi)
}

} // verus!
