//! The wall clock, in whole seconds since the Unix epoch.

use std::time::{Duration, SystemTime, SystemTimeError};
use vstd::prelude::*;

verus! {

#[verifier::external_type_specification]
#[verifier::external_body]
pub struct ExSystemTime(std::time::SystemTime);

#[verifier::external_type_specification]
#[verifier::external_body]
pub struct ExSystemTimeError(std::time::SystemTimeError);

/// The current time, from `SystemTime::now`. Nothing is claimed of it.
#[verifier::external_body]
fn system_now() -> (t: SystemTime) {
    SystemTime::now()
}

/// The time elapsed since the Unix epoch, from `SystemTime::duration_since`;
/// an error when the time is before the epoch. Nothing is claimed of it.
#[verifier::external_body]
fn since_unix_epoch(t: &SystemTime) -> (r: Result<Duration, SystemTimeError>) {
    t.duration_since(std::time::UNIX_EPOCH)
}

/// The whole seconds of a duration, from `Duration::as_secs`. Nothing is
/// claimed of them.
#[verifier::external_body]
fn whole_seconds(d: &Duration) -> (s: u64) {
    d.as_secs()
}

/// The text of a clock error, as its `Display` renders it.
#[verifier::external_body]
fn time_error_text(e: &SystemTimeError) -> (s: String) {
    format!("{e}")
}

/// Whole seconds since the Unix epoch, or the text of the clock's error
/// when the clock is set before the epoch.
pub fn unix_now() -> (r: Result<u64, String>) {
    let now = system_now();
    match since_unix_epoch(&now) {
        Ok(d) => Ok(whole_seconds(&d)),
        Err(e) => Err(time_error_text(&e)),
    }
}

} // verus!
