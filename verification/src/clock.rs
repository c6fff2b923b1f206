//! The wall clock.

use vstd::prelude::*;

verus! {

/// The last second chrono can represent: 23:59:59 on December 31, 262142, in
/// seconds since the Unix epoch.
pub const MAX_CLOCK_SECONDS: i64 = 8_210_266_876_799;

/// Nanoseconds in a second.
pub const NANOS_PER_SECOND: i128 = 1_000_000_000;

/// The last nanosecond chrono can represent, since the Unix epoch.
pub const MAX_CLOCK_NANOS: i128 = 8_210_266_876_799_999_999_999;

/// A reading of the wall clock in nanoseconds since the Unix epoch: not
/// before the epoch, and not after the last moment chrono can represent.
pub open spec fn clock_reading(ns: int) -> bool {
    0 <= ns <= MAX_CLOCK_NANOS
}

/// Reads the wall clock: `chrono::Utc::now()`, taken as whole seconds since
/// the Unix epoch (`DateTime::timestamp`) and the nanoseconds past that second
/// (`DateTime::timestamp_subsec_nanos`).
///
/// chrono builds the reading with `DateTime::from_timestamp` from the system
/// time's seconds and sub-second nanoseconds (always below one second), and
/// panics when the system clock reads a time before the epoch or after the
/// last moment a `DateTime` can hold. So a reading that comes back has its
/// seconds between the two and its nanoseconds below one second. Nothing else
/// is claimed of it: two readings may differ, and the clock may go backwards.
#[verifier::external_body]
fn read_clock() -> (r: (i64, u32))
    ensures
        0 <= r.0 <= MAX_CLOCK_SECONDS,
        r.1 < 1_000_000_000,
{
    let now = chrono::Utc::now();
    (now.timestamp(), now.timestamp_subsec_nanos())
}

/// The wall clock in nanoseconds since the Unix epoch.
pub(crate) fn now_nanos() -> (ns: i128)
    ensures
        clock_reading(ns as int),
{
    let (secs, nanos) = read_clock();
    (secs as i128) * NANOS_PER_SECOND + (nanos as i128)
}

} // verus!
