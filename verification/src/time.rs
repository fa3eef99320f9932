//! The wall clock, in milliseconds since the Unix epoch.
use vstd::prelude::*;

use std::time::{Duration, SystemTime, SystemTimeError};

verus! {

#[verifier::external_type_specification]
#[verifier::external_body]
pub struct ExSystemTime(SystemTime);

#[verifier::external_type_specification]
#[verifier::external_body]
pub struct ExSystemTimeError(SystemTimeError);

/// `SystemTime::now`: the current time of the system clock.
#[verifier::external_body]
fn system_time_now() -> SystemTime {
    SystemTime::now()
}

/// `SystemTime::duration_since` the Unix epoch; an error when `t` lies before it.
#[verifier::external_body]
fn since_unix_epoch(t: &SystemTime) -> Result<Duration, SystemTimeError> {
    t.duration_since(std::time::UNIX_EPOCH)
}

/// `Duration::as_millis`.
#[verifier::external_body]
fn duration_millis(d: &Duration) -> u128 {
    d.as_millis()
}

/// The system clock's reading in whole milliseconds since the Unix epoch,
/// or an error when the clock is set before the epoch.
fn clock_reading() -> Result<u128, ()> {
    let t = system_time_now();
    match since_unix_epoch(&t) {
        Ok(d) => Ok(duration_millis(&d)),
        Err(_) => Err(()),
    }
}

/// A clock reading as a timestamp: the milliseconds truncated to 64 bits, or
/// zero for a clock set before the epoch.
pub fn ms_or_zero(reading: Result<u128, ()>) -> (r: u64)
    ensures
        reading matches Ok(m) ==> r == m as u64,
        reading is Err ==> r == 0,
{
    match reading {
        Ok(m) => m as u64,
        Err(()) => 0,
    }
}

/// Milliseconds since the Unix epoch, truncated to 64 bits; a clock set
/// before the epoch reads as zero.
pub fn now_ms() -> u64 {
    ms_or_zero(clock_reading())
}

} // verus!
