//! The wall clock, behind a trusted wrapper.

use vstd::prelude::*;

verus! {

/// Relies on `chrono::Utc::now` and `chrono::DateTime::timestamp_millis`:
/// the current time as milliseconds since the Unix epoch. The value depends
/// on when the call happens, so nothing is promised of it; callers state what
/// holds whatever time came back.
#[verifier::external_body]
pub fn now_timestamp() -> i64 {
    chrono::Utc::now().timestamp_millis()
}

} // verus!
