//! The wall clock.
use vstd::prelude::*;

verus! {

/// The current time in milliseconds since 1 January 1970 UTC, as
/// `chrono::Utc::now` reads it from the system clock and
/// `DateTime::timestamp_millis` counts it.
///
/// Nothing is claimed of the result: two readings may differ in either
/// direction. chrono gives up on a machine whose clock stands before 1970,
/// which no argument of this function decides.
#[verifier::external_body]
pub(crate) fn utc_now_millis() -> i64 {
    chrono::Utc::now().timestamp_millis()
}

} // verus!
