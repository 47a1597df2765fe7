//! Identity values that only the outside crates can produce: a random id and the time now.
use vstd::prelude::*;

verus! {

/// Relies on uuid::Uuid::new_v4 for a random version-4 UUID, read as its 128-bit value
/// (Uuid::as_u128). Nothing is promised of a random value.
#[verifier::external_body]
pub(crate) fn fresh_id() -> (r: u128) {
    uuid::Uuid::new_v4().as_u128()
}

/// Relies on chrono::Utc::now for the current time, read as milliseconds since the Unix
/// epoch (DateTime::timestamp_millis). It depends on the clock, so nothing is promised of it.
#[verifier::external_body]
pub(crate) fn now_millis() -> (r: i64) {
    chrono::Utc::now().timestamp_millis()
}

} // verus!
