//! Ambient inputs: wall-clock time and randomness.
//!
//! Both come from outside crates and depend on the machine, so nothing is
//! assumed about the values they return; every caller states what holds of
//! its own result whatever these produce.

use vstd::prelude::*;

verus! {

/// Relies on `chrono::Utc::now` for the current wall-clock instant,
/// reduced to its Unix timestamp in seconds.  The time is not a function
/// of anything the caller passes, so nothing is promised of the value.
#[verifier::external_body]
pub(crate) fn now_timestamp() -> i64 {
    chrono::Utc::now().timestamp()
}

/// Relies on `rand::random` for a uniformly distributed machine word.
/// The draw is fresh on every call, so nothing is promised of the value.
#[verifier::external_body]
pub(crate) fn random_u64() -> u64 {
    rand::random::<u64>()
}

} // verus!
