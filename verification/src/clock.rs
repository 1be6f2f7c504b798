//! Reading the system clock.
use vstd::prelude::*;

verus! {

#[verifier::external_type_specification]
#[verifier::external_body]
pub struct ExSystemTime(std::time::SystemTime);

#[verifier::external_type_specification]
#[verifier::external_body]
pub struct ExSystemTimeError(std::time::SystemTimeError);

/// `SystemTime::now`: the current time of the system clock. Nothing is
/// stated of it: it depends on the time.
#[verifier::external_body]
fn now() -> std::time::SystemTime {
    std::time::SystemTime::now()
}

/// `SystemTime::duration_since` the UNIX epoch: the time since the epoch,
/// or, for a clock set before it, an error that holds the time to it.
/// Nothing is stated of the value: it depends on the clock.
#[verifier::external_body]
fn since_epoch(t: &std::time::SystemTime) -> Result<core::time::Duration, std::time::SystemTimeError> {
    t.duration_since(std::time::UNIX_EPOCH)
}

/// `SystemTimeError::duration`: how far the time lies before the epoch.
#[verifier::external_body]
fn error_duration(e: &std::time::SystemTimeError) -> core::time::Duration {
    e.duration()
}

/// `Duration::subsec_nanos`: the fractional part of a duration in
/// nanoseconds, which the documentation says is always below one billion.
#[verifier::external_body]
fn subsec_nanos(d: &core::time::Duration) -> (r: u32)
    ensures
        r < 1_000_000_000,
{
    d.subsec_nanos()
}

/// `Duration::as_nanos`: the whole duration in nanoseconds. Nothing is
/// stated here of a duration that Verus cannot see into.
#[verifier::external_body]
fn as_nanos(d: &core::time::Duration) -> u128 {
    d.as_nanos()
}

/// The nanoseconds of the current second of the system clock; for a clock
/// set before the epoch, those of its distance to it.
pub fn subsec_nanos_now() -> (r: u32)
    ensures
        r < 1_000_000_000,
{
    match since_epoch(&now()) {
        Ok(d) => subsec_nanos(&d),
        Err(e) => subsec_nanos(&error_duration(&e)),
    }
}

/// A count of nanoseconds held in a `u64`: the count itself where it fits,
/// else the largest `u64`.
pub open spec fn clamped_nanos(n: u128) -> u64 {
    if n > u64::MAX {
        u64::MAX
    } else {
        n as u64
    }
}

/// Holds a count of nanoseconds in a `u64`, saturating at the largest one.
pub fn clamp_nanos(n: u128) -> (r: u64)
    ensures
        r == clamped_nanos(n),
{
    if n > 18_446_744_073_709_551_615u128 {
        u64::MAX
    } else {
        n as u64
    }
}

/// The nanoseconds since the UNIX epoch, clamped into a `u64` (the largest
/// `u64` for a clock beyond the year 2554), and 0 for a clock set before the
/// epoch. Which count the clock gives is not stated; the result is always a
/// clamped count.
pub fn nanos_since_epoch() -> (r: u64)
    ensures
        exists|n: u128| r == #[trigger] clamped_nanos(n),
{
    match since_epoch(&now()) {
        Ok(d) => {
            let n = as_nanos(&d);
            let r = clamp_nanos(n);
            assert(r == clamped_nanos(n));
            r
        },
        Err(_) => {
            assert(0u64 == clamped_nanos(0u128));
            0
        },
    }
}

} // verus!
