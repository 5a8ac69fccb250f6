//! The wall clock.

use vstd::prelude::*;
use std::time::{Duration, SystemTime};

verus! {

#[verifier::external_type_specification]
#[verifier::external_body]
pub struct ExSystemTime(SystemTime);

/// Calls `std::time::SystemTime::now`. The time it returns depends on the
/// machine's clock, so nothing is stated of it.
#[verifier::external_body]
fn system_time_now() -> (now: SystemTime) {
    SystemTime::now()
}

/// Calls `SystemTime::duration_since` with `std::time::UNIX_EPOCH`: `Some`
/// of the time elapsed since the epoch, `None` where `now` lies before it.
/// Verus sees nothing inside a `SystemTime` or a `Duration`, so nothing is
/// stated of the result.
#[verifier::external_body]
fn elapsed_since_unix_epoch(now: &SystemTime) -> (elapsed: Option<Duration>) {
    now.duration_since(std::time::UNIX_EPOCH).ok()
}

/// Calls `Duration::as_millis`: the whole milliseconds in `d`. Verus sees
/// nothing inside a `Duration`, so nothing is stated of the result.
#[verifier::external_body]
fn duration_as_millis(d: &Duration) -> (millis: u128) {
    d.as_millis()
}

/// The milliseconds since the epoch when they could be measured, else 0.
pub fn millis_or_zero(elapsed: Option<u128>) -> (r: u128)
    ensures
        r == (match elapsed {
            Some(m) => m,
            None => 0,
        }),
{
    match elapsed {
        Some(m) => m,
        None => 0,
    }
}

/// The current time in whole milliseconds since the Unix epoch, or 0 when the
/// clock stands before the epoch.
///
/// The value rests on the machine's clock, so no clause states it; what is
/// made of a clock reading is stated by `millis_or_zero`, which this calls.
pub fn timestamp_millis() -> (r: u128) {
    let now = system_time_now();
    let elapsed = match elapsed_since_unix_epoch(&now) {
        Some(d) => Some(duration_as_millis(&d)),
        None => None,
    };
    millis_or_zero(elapsed)
}

} // verus!
