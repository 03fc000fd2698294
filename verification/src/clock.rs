//! Points in time, as the store keeps them.

use vstd::prelude::*;

verus! {

/// A point in time on the UTC time line: whole seconds since the start of
/// 1970 and the nanoseconds that have passed within that second.
#[derive(Clone, Copy, Debug, PartialEq, Eq, Structural)]
pub struct Timestamp {
    pub secs: i64,
    pub nanos: u32,
}

/// Reads the system clock with `chrono::Utc::now` and returns what it gave as
/// seconds (`DateTime::timestamp`) and nanoseconds
/// (`DateTime::timestamp_subsec_nanos`).
///
/// Nothing is claimed of the value: it depends on the machine's clock alone.
/// `Utc::now` aborts when that clock reads a time before 1970.
#[verifier::external_body]
pub(crate) fn utc_now() -> (now: Timestamp) {
    let now = chrono::Utc::now();
    Timestamp { secs: now.timestamp(), nanos: now.timestamp_subsec_nanos() }
}

} // verus!
