//! The source of randomness behind the catalog and the event engine.

use rand::Rng;
use vstd::prelude::*;

verus! {

/// Relies on `rand::Rng::random_range` over the thread-local generator from
/// `rand::rng()`: an inclusive range `lo..=hi` yields a value in it, and
/// only an empty range panics.
#[verifier::external_body]
pub(crate) fn random_between(lo: u32, hi: u32) -> (r: u32)
    requires
        lo <= hi,
    ensures
        lo <= r <= hi,
{
    rand::rng().random_range(lo..=hi)
}

} // verus!
