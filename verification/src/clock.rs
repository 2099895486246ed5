//! The wall clock. Nothing is known of what it returns: callers hand the
//! reading on to functions that are verified for every value of it.

use vstd::prelude::*;

verus! {

/// `std::time::SystemTime::now`, then chrono's conversion of a system time to
/// a `DateTime<Utc>`, then `DateTime::timestamp`: the current time in whole
/// seconds since the Unix epoch, negative where the clock stands before it.
/// The conversion takes every time that chrono can represent, which is any
/// within some 262,000 years of the epoch.
#[verifier::external_body]
pub(crate) fn unix_seconds_now() -> (seconds: i64) {
    chrono::DateTime::<chrono::Utc>::from(std::time::SystemTime::now()).timestamp()
}

/// `bson::DateTime::now`, then `DateTime::timestamp_millis`: the current time
/// in milliseconds since the Unix epoch.
#[verifier::external_body]
pub(crate) fn unix_millis_now() -> (millis: i64) {
    mongodb::bson::DateTime::now().timestamp_millis()
}

} // verus!
