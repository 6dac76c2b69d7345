//! The two values the stores take from the machine: a fresh identifier and
//! the current time. Both are nondeterministic, so nothing is promised of
//! them; every contract that mentions them holds whatever they are.

use vstd::prelude::*;

verus! {

/// Relies on `uuid::Uuid::new_v4` and its `Display` form: a freshly drawn
/// random identifier, rendered as text. Random, so nothing is promised.
#[verifier::external_body]
pub fn fresh_id() -> String {
    uuid::Uuid::new_v4().to_string()
}

/// Relies on `chrono::Utc::now` and `timestamp_millis`: the current time as
/// milliseconds since the epoch. Time-dependent, so nothing is promised.
#[verifier::external_body]
pub fn now_millis() -> i64 {
    chrono::Utc::now().timestamp_millis()
}

} // verus!
