//! The wall clock, read as nanoseconds since the Unix epoch.

use vstd::prelude::*;

verus! {

/// Calls `std::time::SystemTime::now` and converts the reading to the nanoseconds that
/// have passed since `UNIX_EPOCH`; `None` where the clock stands before the epoch.
/// Trusted, and nothing is claimed of the value: the system clock may jump either way.
#[verifier::external_body]
fn system_time_nanos() -> Option<u128> {
    match std::time::SystemTime::now().duration_since(std::time::UNIX_EPOCH) {
        Ok(elapsed) => Some(elapsed.as_nanos()),
        Err(_) => None,
    }
}

/// The timestamp that stands for a clock reading: the reading itself, or the epoch
/// for a clock that stands before it.
pub open spec fn timestamp_of(reading: Option<u128>) -> u128 {
    match reading {
        Some(nanos) => nanos,
        None => 0,
    }
}

/// Turns a clock reading into a timestamp.
pub fn to_timestamp(reading: Option<u128>) -> (stamp: u128)
    ensures
        stamp == timestamp_of(reading),
{
    match reading {
        Some(nanos) => nanos,
        None => 0,
    }
}

/// The current time.
pub fn now() -> u128 {
    to_timestamp(system_time_nanos())
}

/// Nanoseconds in a second.
pub const NANOS_PER_SECOND: u128 = 1_000_000_000;

/// The whole seconds of a timestamp, at most `u64::MAX`.
pub open spec fn whole_seconds(stamp: u128) -> u64 {
    if stamp / NANOS_PER_SECOND > u64::MAX {
        u64::MAX
    } else {
        (stamp / NANOS_PER_SECOND) as u64
    }
}

/// The whole seconds that have passed since the epoch at time `stamp`.
pub fn seconds_of(stamp: u128) -> (seconds: u64)
    ensures
        seconds == whole_seconds(stamp),
{
    let seconds: u128 = stamp / NANOS_PER_SECOND;
    if seconds > u64::MAX as u128 {
        u64::MAX
    } else {
        seconds as u64
    }
}

} // verus!
