//! Trusted wrappers around the random number generator.
//!
//! Nothing is assumed about which value comes back beyond the range the
//! generator documents; every caller must work with any outcome.

use vstd::prelude::*;

verus! {

/// Relies on rand's `Rng::gen_range` on the thread-local generator: for a
/// half-open integer range it returns a value in `[lo, hi)` and panics only
/// when the range is empty, which the precondition rules out.
#[verifier::external_body]
pub(crate) fn sample_range(lo: i32, hi: i32) -> (r: i32)
    requires
        lo < hi,
    ensures
        lo <= r < hi,
{
    rand::Rng::gen_range(&mut rand::thread_rng(), lo..hi)
}

/// Relies on rand's `random::<bool>()`: it returns a bool drawn from the
/// `Standard` distribution. Nothing can be promised about which one.
#[verifier::external_body]
pub(crate) fn coin_flip() -> bool {
    rand::random::<bool>()
}

} // verus!
