//! The wall clock, read as seconds since the Unix epoch.

use std::time::{Duration, SystemTime, SystemTimeError, UNIX_EPOCH};
use vstd::prelude::*;

verus! {

/// `std::time::SystemTime`: a reading of the system clock. Nothing is known
/// of it.
#[verifier::external_type_specification]
#[verifier::external_body]
pub struct ExSystemTime(SystemTime);

/// `std::time::SystemTimeError`: a clock that stands before the time it is
/// measured from. Nothing is known of it.
#[verifier::external_type_specification]
#[verifier::external_body]
pub struct ExSystemTimeError(SystemTimeError);

/// `SystemTime::now`: the current system time. Nothing is claimed of it.
#[verifier::external_body]
fn system_now() -> SystemTime {
    SystemTime::now()
}

/// `SystemTime::duration_since` from the Unix epoch: the time that has passed
/// since the epoch, or an error for a time before it. Nothing is claimed of
/// the result.
#[verifier::external_body]
fn since_unix_epoch(time: &SystemTime) -> Result<Duration, SystemTimeError> {
    time.duration_since(UNIX_EPOCH)
}

/// `Duration::as_secs`: the whole seconds of a duration. Nothing is claimed
/// of the result.
#[verifier::external_body]
fn whole_seconds(duration: &Duration) -> u64 {
    duration.as_secs()
}

/// Reads the wall clock. The result is `None` where the clock stands before
/// the Unix epoch or beyond what a timestamp can hold.
pub fn unix_now() -> (now: Option<i64>)
    ensures
        now matches Some(seconds) ==> seconds >= 0,
{
    let time = system_now();
    let elapsed = match since_unix_epoch(&time) {
        Ok(duration) => Some(whole_seconds(&duration)),
        Err(_) => None,
    };
    reading_from_elapsed(elapsed)
}

/// The clock reading that an elapsed time since the Unix epoch makes, in
/// whole seconds: the same number of seconds where a timestamp can hold it.
/// `None` stands for a clock before the epoch, and stays `None`; so does a
/// time beyond the greatest timestamp.
pub open spec fn reading_of_elapsed(elapsed: Option<u64>) -> Option<i64> {
    match elapsed {
        Some(seconds) if seconds <= i64::MAX => Some(seconds as i64),
        _ => None,
    }
}

/// Makes a clock reading of the time that has passed since the Unix epoch,
/// given in whole seconds, or of `None` for a clock that stands before it.
pub fn reading_from_elapsed(elapsed: Option<u64>) -> (now: Option<i64>)
    ensures
        now == reading_of_elapsed(elapsed),
{
    match elapsed {
        Some(seconds) => {
            if seconds <= 0x7fff_ffff_ffff_ffff {
                Some(seconds as i64)
            } else {
                None
            }
        },
        None => None,
    }
}

} // verus!
