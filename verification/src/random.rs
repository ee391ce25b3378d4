//! Random numbers through the `rand` crate.
use rand::Rng;
use vstd::prelude::*;

verus! {

/// A random number in `lo..hi` from `rand::thread_rng().gen_range`. The
/// contract claims only the range: the value is random. `gen_range` panics
/// on an empty range, which `requires` leaves out.
#[verifier::external_body]
pub(crate) fn random_in(lo: u32, hi: u32) -> (r: u32)
    requires
        lo < hi,
    ensures
        lo <= r < hi,
{
    rand::thread_rng().gen_range(lo..hi)
}

} // verus!
