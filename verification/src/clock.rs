//! The system clock, read as nanoseconds relative to the Unix epoch.
use vstd::prelude::*;
use core::time::Duration;
use std::time::{SystemTime, SystemTimeError};

verus! {

#[verifier::external_type_specification]
#[verifier::external_body]
pub struct ExSystemTime(std::time::SystemTime);

#[verifier::external_type_specification]
#[verifier::external_body]
pub struct ExSystemTimeError(std::time::SystemTimeError);

/// The largest number of nanoseconds that a `Duration` spans: `u64::MAX`
/// whole seconds and 999 999 999 nanoseconds.
pub open spec fn max_duration_nanos() -> int {
    u64::MAX as int * 1_000_000_000 + 999_999_999
}

/// `SystemTime::now`. The value depends on the clock, so nothing is promised
/// of it.
#[verifier::external_body]
pub(crate) fn system_time_now() -> SystemTime {
    SystemTime::now()
}

/// `SystemTime::duration_since(UNIX_EPOCH)`: how long after the epoch the
/// time is, or an error that carries how long before it the time is. Nothing
/// about a `SystemTime` can be stated here, so nothing is promised.
#[verifier::external_body]
pub(crate) fn duration_since_unix_epoch(t: &SystemTime) -> Result<Duration, SystemTimeError> {
    t.duration_since(std::time::UNIX_EPOCH)
}

/// `SystemTimeError::duration`: how far the time lies before the epoch.
#[verifier::external_body]
pub(crate) fn time_error_duration(e: &SystemTimeError) -> Duration {
    e.duration()
}

/// `Duration::as_nanos`: the whole nanoseconds that the duration spans,
/// which a duration (at most `u64::MAX` seconds and less than a second more)
/// keeps below `max_duration_nanos() + 1`.
#[verifier::external_body]
pub(crate) fn duration_as_nanos(d: &Duration) -> (n: u128)
    ensures
        n <= max_duration_nanos(),
{
    d.as_nanos()
}

/// A time given as its distance from the epoch, in nanoseconds, and on
/// which side of the epoch it lies.
pub fn nanos_from_reading(after_epoch: bool, distance: u128) -> (t: i128)
    requires
        distance <= max_duration_nanos(),
    ensures
        t == if after_epoch {
            distance as int
        } else {
            -(distance as int)
        },
{
    if after_epoch {
        distance as i128
    } else {
        -(distance as i128)
    }
}

/// The current time in nanoseconds since the Unix epoch, negative before it:
/// the distance that `duration_since(UNIX_EPOCH)` gives, or minus the
/// distance that its error carries. Either distance is a `Duration`, so the
/// time lies within `max_duration_nanos()` of the epoch.
pub fn current_time_nanos() -> (t: i128)
    ensures
        -max_duration_nanos() <= t <= max_duration_nanos(),
{
    let now = system_time_now();
    match duration_since_unix_epoch(&now) {
        Ok(elapsed) => nanos_from_reading(true, duration_as_nanos(&elapsed)),
        Err(before) => {
            let distance = time_error_duration(&before);
            nanos_from_reading(false, duration_as_nanos(&distance))
        },
    }
}

} // verus!
