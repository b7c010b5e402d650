use std::time::{Duration, SystemTime, SystemTimeError};
use vstd::prelude::*;

verus! {

#[verifier::external_type_specification]
#[verifier::external_body]
pub struct ExSystemTime(SystemTime);

#[verifier::external_type_specification]
#[verifier::external_body]
pub struct ExSystemTimeError(SystemTimeError);

/// `SystemTime::now`: the current wall-clock time. Nothing is stated of it: it
/// depends on the machine's clock.
#[verifier::external_body]
fn system_now() -> SystemTime {
    SystemTime::now()
}

/// `SystemTime::duration_since(UNIX_EPOCH)`: the time elapsed since the Unix epoch,
/// or an error for a clock set before 1970. Nothing is stated of which.
#[verifier::external_body]
fn since_unix_epoch(t: &SystemTime) -> Result<Duration, SystemTimeError> {
    t.duration_since(std::time::UNIX_EPOCH)
}

/// `Duration::as_secs`: the whole seconds of a duration (no contract: a duration is
/// opaque here).
#[verifier::external_body]
fn whole_seconds(d: &Duration) -> u64 {
    d.as_secs()
}

/// `Duration::as_millis`: the whole milliseconds of a duration (no contract: a
/// duration is opaque here).
#[verifier::external_body]
fn whole_millis(d: &Duration) -> u128 {
    d.as_millis()
}

/// The seconds value kept for a clock reading: the elapsed whole seconds since the
/// epoch (converted to `i64` as Rust's `as` does, by truncation), or 0 when the clock
/// read earlier than the epoch (`None`).
pub open spec fn seconds_value(elapsed: Option<u64>) -> i64 {
    match elapsed {
        Some(s) => s as i64,
        None => 0,
    }
}

/// The milliseconds value kept for a clock reading: the elapsed whole milliseconds
/// since the epoch (converted to `u64` by truncation), or 0 when the clock read earlier
/// than the epoch (`None`).
pub open spec fn millis_value(elapsed: Option<u128>) -> u64 {
    match elapsed {
        Some(ms) => ms as u64,
        None => 0,
    }
}

/// Turns the whole seconds elapsed since the epoch (`None` for a clock before the
/// epoch) into the stored timestamp.
pub fn seconds_or_zero(elapsed: Option<u64>) -> (r: i64)
    ensures
        r == seconds_value(elapsed),
{
    match elapsed {
        Some(secs) => {
            #[verifier::truncate]
            (secs as i64)
        },
        None => 0,
    }
}

/// Turns the whole milliseconds elapsed since the epoch (`None` for a clock before the
/// epoch) into the millisecond timestamp.
pub fn millis_or_zero(elapsed: Option<u128>) -> (r: u64)
    ensures
        r == millis_value(elapsed),
{
    match elapsed {
        Some(ms) => {
            #[verifier::truncate]
            (ms as u64)
        },
        None => 0,
    }
}

/// The current time in whole seconds since the Unix epoch, 0 when the clock reads
/// earlier than the epoch (see `seconds_or_zero`). The reading comes from the clock,
/// so no clause can fix the value.
pub fn unix_seconds() -> i64 {
    let now = system_now();
    let elapsed = match since_unix_epoch(&now) {
        Ok(d) => Some(whole_seconds(&d)),
        Err(_) => None,
    };
    seconds_or_zero(elapsed)
}

/// The current time in whole milliseconds since the Unix epoch, 0 when the clock
/// reads earlier than the epoch (see `millis_or_zero`). The reading comes from the
/// clock, so no clause can fix the value.
pub fn now_ms() -> u64 {
    let now = system_now();
    let elapsed = match since_unix_epoch(&now) {
        Ok(d) => Some(whole_millis(&d)),
        Err(_) => None,
    };
    millis_or_zero(elapsed)
}

} // verus!
