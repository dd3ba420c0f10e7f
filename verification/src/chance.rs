//! The one randomness primitive the core draws on.

use vstd::prelude::*;

use rand::RngExt;

verus! {

/// Relies on rand's RngExt::random_range over the inclusive range lo..=hi:
/// it returns a value inside the range and panics only on an empty range,
/// which the precondition rules out.
#[verifier::external_body]
pub(crate) fn random_between(lo: i64, hi: i64) -> (r: i64)
    requires
        lo <= hi,
    ensures
        lo <= r <= hi,
{
    rand::rng().random_range(lo..=hi)
}

} // verus!
