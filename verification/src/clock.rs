//! Identifiers and timestamps drawn from the system (random ids, clock).
use vstd::prelude::*;

verus! {

/// `uuid::Uuid::new_v4` as a 128-bit integer (`Uuid::as_u128`). The value
/// is random: nothing is claimed about it.
#[verifier::external_body]
pub(crate) fn random_uuid() -> u128 {
    uuid::Uuid::new_v4().as_u128()
}

/// `chrono::Utc::now`, as microseconds since the Unix epoch
/// (`DateTime::timestamp_micros`). The value depends on the clock:
/// nothing is claimed about it.
#[verifier::external_body]
pub(crate) fn now_micros() -> i64 {
    chrono::Utc::now().timestamp_micros()
}

} // verus!
