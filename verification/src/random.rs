//! Chance: the gameplay random numbers.

use vstd::prelude::*;

verus! {

/// Calls `rand::random_range` over `lo..=hi` (the thread-local generator):
/// a number drawn from that inclusive range. It depends on chance, so only
/// the range is stated. The range must not be empty, or the call panics.
#[verifier::external_body]
pub(crate) fn gameplay_rnd(lo: i16, hi: i16) -> (r: i16)
    requires
        lo <= hi,
    ensures
        lo <= r <= hi,
{
    rand::random_range(lo..=hi)
}

} // verus!
