//! The engine's one source of randomness.

use vstd::prelude::*;
use rand::Rng;

verus! {

/// Relies on `rand::rng()` and `rand::Rng::random_range`: a draw from the
/// thread-local generator that lies in `lo..=hi`. `random_range` panics only
/// on an empty range, which `requires` excludes. Nothing is known of which
/// value comes out.
#[verifier::external_body]
pub(crate) fn random_in(lo: i64, hi: i64) -> (r: i64)
    requires
        lo <= hi,
    ensures
        lo <= r <= hi,
{
    rand::rng().random_range(lo..=hi)
}

} // verus!
