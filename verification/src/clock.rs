//! The clock of the machine, in whole seconds since the Unix epoch.

use core::time::Duration;
use std::time::SystemTime;
use vstd::prelude::*;

verus! {

#[verifier::external_type_specification]
#[verifier::external_body]
pub struct ExSystemTime(SystemTime);

/// Calls `std::time::SystemTime::now`. Nothing is assumed of the instant.
#[verifier::external_body]
fn system_time_now() -> SystemTime {
    SystemTime::now()
}

/// Calls `std::time::SystemTime::duration_since` with the Unix epoch; `None`
/// for an instant before the epoch. Nothing is assumed of the duration.
#[verifier::external_body]
fn duration_since_epoch(instant: &SystemTime) -> Option<Duration> {
    instant.duration_since(std::time::UNIX_EPOCH).ok()
}

/// Calls `core::time::Duration::as_secs`. Nothing is assumed of the number.
#[verifier::external_body]
pub(crate) fn duration_secs(duration: &Duration) -> u64 {
    duration.as_secs()
}

/// The whole seconds since the Unix epoch, as the clock of the machine has
/// them; `None` where the clock stands before the epoch.
pub fn unix_time_now() -> Option<u64> {
    let now = system_time_now();
    match duration_since_epoch(&now) {
        Some(elapsed) => Some(duration_secs(&elapsed)),
        None => None,
    }
}

} // verus!
