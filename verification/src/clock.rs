//! Access to the wall clock, for timestamping completed tests. Elapsed-time
//! arithmetic never uses this: sessions take monotonic milliseconds from their
//! caller instead.

use vstd::prelude::*;

verus! {

/// Relies on chrono's `From<SystemTime>` impl for `DateTime<Utc>` (which,
/// unlike `Utc::now`, turns a clock set before the Unix epoch into a negative
/// timestamp instead of aborting) and on `DateTime::timestamp_millis`:
/// milliseconds since the Unix epoch on the wall clock. Nothing is assumed of
/// the value.
#[verifier::external_body]
pub(crate) fn now_unix_millis() -> i64 {
    chrono::DateTime::<chrono::Utc>::from(std::time::SystemTime::now()).timestamp_millis()
}

} // verus!
