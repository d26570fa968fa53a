//! Randomness, drawn from the thread-local generator of the `rand` crate.
//!
//! A draw depends on the generator's state, so two calls on the same
//! arguments may differ; the contracts state only what holds of every
//! outcome, and everything built on a draw is verified for every value
//! the draw could take.

use vstd::prelude::*;

verus! {

/// Relies on rand::random_range over `0..n`: a uniformly random index
/// strictly below `n`. The call panics only on an empty range, which the
/// precondition excludes.
#[verifier::external_body]
pub(crate) fn rand_below(n: usize) -> (r: usize)
    requires
        n > 0,
    ensures
        r < n,
{
    rand::random_range(0..n)
}

/// Relies on rand::random::<u64>: a uniformly random 64-bit word. Nothing
/// is promised of the result.
#[verifier::external_body]
pub(crate) fn rand_word() -> u64 {
    rand::random::<u64>()
}

} // verus!
