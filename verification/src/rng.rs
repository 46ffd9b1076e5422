//! The crate's single source of randomness: uniform sampling from a
//! half-open integer range.  Nothing is assumed of a sample beyond its
//! range; every caller's contract holds for every outcome.

use vstd::prelude::*;

verus! {

/// Relies on rand::Rng::gen_range over a half-open i64 range: the sample
/// is uniform within the range, and the call panics only on an empty
/// range, which the precondition rules out.
#[verifier::external_body]
pub(crate) fn gen_range_i64(lo: i64, hi: i64) -> (r: i64)
    requires
        lo < hi,
    ensures
        lo <= r < hi,
{
    rand::Rng::gen_range(&mut rand::thread_rng(), lo..hi)
}

} // verus!
