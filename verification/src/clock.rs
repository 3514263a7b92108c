//! Readings of the system clock. Which instant a reading gives rests on the
//! machine's clock; what the library derives from a reading is stated exactly.
use std::time::{SystemTime, SystemTimeError};
use core::time::Duration;
use vstd::prelude::*;

verus! {

#[verifier::external_type_specification]
#[verifier::external_body]
pub struct ExSystemTime(SystemTime);

#[verifier::external_type_specification]
#[verifier::external_body]
pub struct ExSystemTimeError(SystemTimeError);

/// What `SystemTime::duration_since(UNIX_EPOCH)` gives for the instant `t`:
/// the time elapsed since the epoch, or an error when `t` lies before it.
pub uninterp spec fn elapsed_since_epoch(t: SystemTime) -> Result<Duration, SystemTimeError>;

/// What `Duration::as_secs` gives for `d`: its whole seconds.
pub uninterp spec fn duration_secs(d: Duration) -> u64;

/// What `Duration::subsec_nanos` gives for `d`: its fractional part in
/// nanoseconds.
pub uninterp spec fn duration_subsec_nanos(d: Duration) -> u32;

/// Whole seconds of a reading of the time since the epoch; 0 for a clock set
/// before the epoch.
pub open spec fn secs_of_reading(reading: Result<Duration, SystemTimeError>) -> u64 {
    match reading {
        Ok(d) => duration_secs(d),
        Err(_) => 0,
    }
}

/// Sub-second nanoseconds of a reading of the time since the epoch; 0 for a
/// clock set before the epoch.
pub open spec fn nanos_of_reading(reading: Result<Duration, SystemTimeError>) -> u32 {
    match reading {
        Ok(d) => duration_subsec_nanos(d),
        Err(_) => 0,
    }
}

/// The whole seconds since the epoch that the clock gives at the instant `t`.
pub open spec fn clock_secs(t: SystemTime) -> u64 {
    secs_of_reading(elapsed_since_epoch(t))
}

/// The sub-second nanoseconds that the clock gives at the instant `t`.
pub open spec fn clock_nanos(t: SystemTime) -> u32 {
    nanos_of_reading(elapsed_since_epoch(t))
}

/// Calls `std::time::SystemTime::now`. The reading is the machine's clock;
/// nothing is stated of which instant it gives.
#[verifier::external_body]
fn system_now() -> SystemTime {
    SystemTime::now()
}

/// Calls `SystemTime::duration_since` with `UNIX_EPOCH` as the earlier time.
/// The result depends on `t` alone, and is named `elapsed_since_epoch(t)`.
#[verifier::external_body]
fn since_epoch(t: &SystemTime) -> (r: Result<Duration, SystemTimeError>)
    ensures
        r == elapsed_since_epoch(*t),
{
    t.duration_since(std::time::UNIX_EPOCH)
}

/// Calls `Duration::as_secs`: the whole seconds in `d`, named
/// `duration_secs(d)`.
#[verifier::external_body]
fn whole_secs(d: &Duration) -> (r: u64)
    ensures
        r == duration_secs(*d),
{
    d.as_secs()
}

/// Calls `Duration::subsec_nanos`: the fractional part of `d` in
/// nanoseconds, named `duration_subsec_nanos(d)`, which std documents as
/// always below one billion.
#[verifier::external_body]
fn subsec_nanos(d: &Duration) -> (n: u32)
    ensures
        n == duration_subsec_nanos(*d),
        n < 1_000_000_000,
{
    d.subsec_nanos()
}

/// The whole seconds of a reading of the time since the epoch, or 0 when the
/// reading is the error of a clock set before the epoch.
pub fn seconds_of(reading: Result<Duration, SystemTimeError>) -> (s: u64)
    ensures
        s == secs_of_reading(reading),
        reading matches Ok(d) ==> s == duration_secs(d),
        reading is Err ==> s == 0,
{
    match reading {
        Ok(d) => whole_secs(&d),
        Err(_) => 0,
    }
}

/// The sub-second nanoseconds of a reading of the time since the epoch, or 0
/// when the reading is the error of a clock set before the epoch.
pub fn nanos_of(reading: Result<Duration, SystemTimeError>) -> (n: u32)
    ensures
        n == nanos_of_reading(reading),
        reading matches Ok(d) ==> n == duration_subsec_nanos(d),
        reading is Err ==> n == 0,
        n < 1_000_000_000,
{
    match reading {
        Ok(d) => subsec_nanos(&d),
        Err(_) => 0,
    }
}

/// Seconds since the Unix epoch at the instant the clock is read, or 0 when
/// the clock reads earlier than the epoch.
pub fn now_secs() -> (s: u64)
    ensures
        exists|t: SystemTime| s == #[trigger] clock_secs(t),
{
    let t = system_now();
    let reading = since_epoch(&t);
    let s = seconds_of(reading);
    assert(s == clock_secs(t));
    s
}

/// The sub-second part of the instant the clock is read, in nanoseconds, or 0
/// when the clock reads earlier than the epoch. Differs between nearly any
/// two calls.
pub fn now_subsec_nanos() -> (n: u32)
    ensures
        exists|t: SystemTime| n == #[trigger] clock_nanos(t),
        n < 1_000_000_000,
{
    let t = system_now();
    let reading = since_epoch(&t);
    let n = nanos_of(reading);
    assert(n == clock_nanos(t));
    n
}

} // verus!
