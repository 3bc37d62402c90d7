//! Reading the clocks. What these return depends on when they are called,
//! so nothing is promised of their results; the logic that uses them takes
//! the readings as arguments.

use vstd::prelude::*;
use std::time::{Duration, Instant, SystemTime, UNIX_EPOCH};

verus! {

/// A point on the monotonic clock (`std::time::Instant`).
#[verifier::external_type_specification]
#[verifier::external_body]
pub struct ExInstant(Instant);

/// The current point on the monotonic clock (`Instant::now`).
#[verifier::external_body]
pub(crate) fn instant_now() -> Instant {
    Instant::now()
}

/// A reading of the wall clock (`std::time::SystemTime`).
#[verifier::external_type_specification]
#[verifier::external_body]
pub struct ExSystemTime(SystemTime);

/// The time that has passed since `start` (`Instant::elapsed`; zero when
/// `start` is later than now).
#[verifier::external_body]
fn elapsed_since(start: &Instant) -> Duration {
    start.elapsed()
}

/// What `Duration::as_millis` answers: the whole milliseconds of a duration.
pub uninterp spec fn whole_millis(d: Duration) -> u128;

/// What `Duration::as_secs` answers: the whole seconds of a duration.
pub uninterp spec fn whole_secs(d: Duration) -> u64;

/// The whole milliseconds of `d` (`Duration::as_millis`).
#[verifier::external_body]
fn duration_millis(d: &Duration) -> (r: u128)
    ensures
        r == whole_millis(*d),
{
    d.as_millis()
}

/// The whole seconds of `d` (`Duration::as_secs`).
#[verifier::external_body]
fn duration_secs(d: &Duration) -> (r: u64)
    ensures
        r == whole_secs(*d),
{
    d.as_secs()
}

/// The current reading of the wall clock (`SystemTime::now`).
#[verifier::external_body]
fn system_now() -> SystemTime {
    SystemTime::now()
}

/// The time from the Unix epoch to `t` (`SystemTime::duration_since`);
/// `None` when `t` is before the epoch. Nothing is claimed of it.
#[verifier::external_body]
fn since_epoch(t: &SystemTime) -> Option<Duration> {
    match t.duration_since(UNIX_EPOCH) {
        Ok(d) => Some(d),
        Err(_) => None,
    }
}

/// Whole milliseconds since `start`, at most `u64::MAX`.
pub(crate) fn elapsed_millis(start: &Instant) -> u64 {
    let d = elapsed_since(start);
    let ms = duration_millis(&d);
    if ms > u64::MAX as u128 {
        u64::MAX
    } else {
        ms as u64
    }
}

/// Whole seconds since `start`.
pub(crate) fn elapsed_secs(start: &Instant) -> u64 {
    let d = elapsed_since(start);
    duration_secs(&d)
}

/// Seconds since the Unix epoch on the wall clock: 0 when the clock reads
/// before the epoch, and at most `i64::MAX`.
pub(crate) fn unix_now() -> (r: i64)
    ensures
        r >= 0,
{
    match since_epoch(&system_now()) {
        Some(d) => {
            let s = duration_secs(&d);
            if s > i64::MAX as u64 {
                i64::MAX
            } else {
                s as i64
            }
        },
        None => 0,
    }
}

} // verus!
