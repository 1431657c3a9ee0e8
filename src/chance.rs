//! The source of randomness.
use vstd::prelude::*;

verus! {

/// Relies on `rand::random_range`: a value drawn from `[low, high)` by the
/// thread-local generator. It panics on an empty range, which `requires`
/// leaves out.
#[verifier::external_body]
pub(crate) fn random_in(low: u64, high: u64) -> (r: u64)
    requires
        low < high,
    ensures
        low <= r < high,
{
    rand::random_range(low..high)
}

} // verus!
