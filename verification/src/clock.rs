//! The system clock, read through `std::time`.

use vstd::prelude::*;

verus! {

/// A reading of the system clock. Its contents are not looked at.
#[verifier::external_type_specification]
#[verifier::external_body]
pub struct ExSystemTime(std::time::SystemTime);

/// The error of a clock reading that lies before the moment it is measured
/// from. Its contents are not looked at.
#[verifier::external_type_specification]
#[verifier::external_body]
pub struct ExSystemTimeError(std::time::SystemTimeError);

/// Calls `SystemTime::now`. Nothing is promised of the reading.
#[verifier::external_body]
fn system_now() -> (reading: std::time::SystemTime) {
    std::time::SystemTime::now()
}

/// Calls `SystemTime::duration_since` with `UNIX_EPOCH`: the time that has
/// passed since the epoch, or an error where the reading lies before it.
#[verifier::external_body]
fn since_epoch(reading: &std::time::SystemTime) -> (elapsed: Result<
    std::time::Duration,
    std::time::SystemTimeError,
>) {
    reading.duration_since(std::time::UNIX_EPOCH)
}

/// Calls `Duration::as_secs`: the whole seconds of a duration.
#[verifier::external_body]
fn whole_seconds(elapsed: &std::time::Duration) -> (seconds: u64) {
    elapsed.as_secs()
}

/// The seconds that have passed since the Unix epoch by the system clock,
/// or `None` where the clock stands before the epoch.
pub(crate) fn unix_seconds() -> (now: Option<u64>) {
    let reading = system_now();
    match since_epoch(&reading) {
        Ok(elapsed) => Some(whole_seconds(&elapsed)),
        Err(_) => None,
    }
}

} // verus!
