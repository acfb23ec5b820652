//! The system clock.

use crate::error::Timestamp;
use vstd::prelude::*;

verus! {

/// A point in time as the system clock gives it. Nothing of its inside is
/// known here.
#[verifier::external_type_specification]
#[verifier::external_body]
pub struct ExSystemTime(std::time::SystemTime);

/// Trusted: `SystemTime::now`. Nothing is claimed of the reading: two calls
/// may return points in any order.
pub assume_specification[ std::time::SystemTime::now ]() -> (now: std::time::SystemTime);

/// Trusted: `SystemTime::duration_since`, measured from the Unix epoch.
/// Returns the time that has passed since the epoch, or `None` where `time`
/// lies before it. Nothing is claimed of the length.
#[verifier::external_body]
fn since_epoch(time: &std::time::SystemTime) -> (elapsed: Option<std::time::Duration>) {
    match time.duration_since(std::time::UNIX_EPOCH) {
        Ok(elapsed) => Some(elapsed),
        Err(_) => None,
    }
}

/// Trusted: `Duration::as_secs`, the whole seconds of a length of time.
/// Nothing is claimed of the number.
pub assume_specification[ std::time::Duration::as_secs ](length: &std::time::Duration) -> (seconds:
    u64);

/// The current time in seconds since the Unix epoch; zero where the system
/// clock stands before the epoch.
pub fn current_timestamp() -> Timestamp {
    let now = std::time::SystemTime::now();
    let reading = match since_epoch(&now) {
        Some(elapsed) => Some(elapsed.as_secs()),
        None => None,
    };
    timestamp_from(reading)
}

/// The timestamp that stands for a reading of the clock: the whole seconds
/// since the epoch that were read, or zero where the clock stood before the
/// epoch.
pub open spec fn stamp_of(reading: Option<u64>) -> Timestamp {
    match reading {
        Some(seconds) => seconds,
        None => 0,
    }
}

/// Turns a reading of the clock into a timestamp: `Some` holds the whole
/// seconds since the epoch, `None` says that the clock stood before it.
/// [`current_timestamp`] reads the clock once and hands the reading here.
pub fn timestamp_from(reading: Option<u64>) -> (stamp: Timestamp)
    ensures
        stamp == stamp_of(reading),
{
    match reading {
        Some(seconds) => seconds,
        None => 0,
    }
}

} // verus!
