use std::time::{Duration, SystemTime, SystemTimeError, UNIX_EPOCH};
use vstd::prelude::*;

verus! {

/// The wall-clock time of the machine, as `std::time::SystemTime` keeps it.
#[verifier::external_type_specification]
#[verifier::external_body]
pub struct ExSystemTime(SystemTime);

/// The error of `SystemTime::duration_since` when the later time is earlier.
#[verifier::external_type_specification]
#[verifier::external_body]
pub struct ExSystemTimeError(SystemTimeError);

/// Reads the clock with `std::time::SystemTime::now`; the time read is the
/// machine's and nothing is claimed of it.
#[verifier::external_body]
fn read_clock() -> SystemTime {
    SystemTime::now()
}

/// The time elapsed from the Unix epoch to `t`, by
/// `std::time::SystemTime::duration_since(UNIX_EPOCH)`; an error where `t`
/// lies before the epoch. `t` is opaque here, so which of the two comes back
/// is left unsaid.
#[verifier::external_body]
fn elapsed_since_epoch(t: SystemTime) -> Result<Duration, SystemTimeError> {
    t.duration_since(UNIX_EPOCH)
}

/// The whole seconds of `d`, by `std::time::Duration::as_secs`; `d` is opaque
/// here, so nothing is claimed of the number.
#[verifier::external_body]
fn whole_seconds(d: &Duration) -> u64 {
    d.as_secs()
}

/// The whole seconds from the Unix epoch to now, or `None` where the clock
/// reads a time before the epoch.
pub(crate) fn seconds_since_epoch() -> Option<u64> {
    match elapsed_since_epoch(read_clock()) {
        Ok(d) => Some(whole_seconds(&d)),
        Err(_) => None,
    }
}

} // verus!
