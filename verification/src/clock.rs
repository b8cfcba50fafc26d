use vstd::prelude::*;

use std::time::{Duration, Instant, SystemTime, SystemTimeError, UNIX_EPOCH};

verus! {

#[verifier::external_type_specification]
#[verifier::external_body]
pub struct ExInstant(Instant);

#[verifier::external_type_specification]
#[verifier::external_body]
pub struct ExSystemTime(SystemTime);

#[verifier::external_type_specification]
#[verifier::external_body]
pub struct ExSystemTimeError(SystemTimeError);

/// Calls `Instant::elapsed`: the time that has passed since `t`, as the
/// monotonic clock reads now. Nothing is promised of the result.
#[verifier::external_body]
pub(crate) fn instant_elapsed(t: &Instant) -> Duration {
    t.elapsed()
}

/// Calls `Duration::as_millis`: the whole milliseconds of `d`. A
/// `Duration` is opaque here, so nothing is stated of the result.
#[verifier::external_body]
pub(crate) fn duration_millis(d: &Duration) -> u128 {
    d.as_millis()
}

/// Calls `Duration::as_secs`: the whole seconds of `d`. A `Duration` is
/// opaque here, so nothing is stated of the result.
#[verifier::external_body]
pub(crate) fn duration_secs(d: &Duration) -> u64 {
    d.as_secs()
}

/// Calls `SystemTime::now`: the wall clock as it reads now. Nothing is
/// promised of the result.
#[verifier::external_body]
pub(crate) fn system_now() -> SystemTime {
    SystemTime::now()
}

/// Calls `SystemTime::duration_since` with the Unix epoch: the time from the
/// epoch to `t`, or an error when `t` lies before it. Nothing is stated of
/// which comes back.
#[verifier::external_body]
pub(crate) fn since_unix_epoch(t: &SystemTime) -> Result<Duration, SystemTimeError> {
    t.duration_since(UNIX_EPOCH)
}

/// Whole seconds since the Unix epoch by the wall clock, 0 when the clock
/// reads a time before the epoch.
pub(crate) fn unix_time_secs() -> u64 {
    let now = system_now();
    match since_unix_epoch(&now) {
        Ok(d) => duration_secs(&d),
        Err(_) => 0,
    }
}

} // verus!
