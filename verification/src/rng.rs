//! The library's one source of randomness.
use vstd::prelude::*;

verus! {

/// Relies on rand::random_range: a sample of the half-open range `0..n`,
/// uniform over it; the range is non-empty, so the call cannot panic.
/// Nothing more is assumed of the value.
#[verifier::external_body]
pub(crate) fn rand_below(n: u64) -> (r: u64)
    requires
        n > 0,
    ensures
        r < n,
{
    rand::random_range(0..n)
}

} // verus!
