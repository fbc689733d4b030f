use std::time::{Duration, Instant};
use vstd::prelude::*;

verus! {

#[verifier::external_type_specification]
#[verifier::external_body]
pub struct ExInstant(Instant);

pub const NANOS_PER_SEC: u128 = 1000000000;

/// The number of nanoseconds in the longest `Duration`: `u64::MAX` seconds
/// and 999 999 999 nanoseconds.
pub const DURATION_MAX_NANOS: u128 = 18446744073709551615999999999;

/// The total number of nanoseconds that a `Duration` holds.
pub uninterp spec fn duration_nanos(duration: Duration) -> u128;

/// `Instant::now`: the current time, of which nothing is stated.
#[verifier::external_body]
pub(crate) fn instant_now() -> Instant {
    Instant::now()
}

/// `Instant::elapsed`: the time since `instant`, of which nothing is stated.
#[verifier::external_body]
pub(crate) fn instant_elapsed(instant: &Instant) -> Duration {
    instant.elapsed()
}

/// `Duration::as_nanos`: the total number of nanoseconds the duration holds,
/// which is at most that of the longest duration.
#[verifier::external_body]
pub(crate) fn duration_as_nanos(duration: &Duration) -> (nanos: u128)
    ensures
        nanos == duration_nanos(*duration),
        nanos <= DURATION_MAX_NANOS,
{
    duration.as_nanos()
}

/// `Duration::new`: the duration of `secs` seconds and `nanos` further
/// nanoseconds, given fewer than a second's worth of them.
#[verifier::external_body]
pub(crate) fn duration_new(secs: u64, nanos: u32) -> (duration: Duration)
    requires
        nanos < NANOS_PER_SEC,
    ensures
        duration_nanos(duration) == secs * NANOS_PER_SEC + nanos,
{
    Duration::new(secs, nanos)
}

/// `Duration::from_millis`: the duration of `millis` milliseconds.
#[verifier::external_body]
pub(crate) fn duration_from_millis(millis: u64) -> (duration: Duration)
    ensures
        duration_nanos(duration) == millis * 1000000,
{
    Duration::from_millis(millis)
}

/// The duration of the given number of nanoseconds.
pub fn duration_from_nanos(nanos: u128) -> (duration: Duration)
    requires
        nanos <= DURATION_MAX_NANOS,
    ensures
        duration_nanos(duration) == nanos,
{
    let secs = nanos / NANOS_PER_SEC;
    let rest = nanos % NANOS_PER_SEC;
    assert(secs <= u64::MAX) by (nonlinear_arith)
        requires
            nanos <= DURATION_MAX_NANOS,
            secs == nanos / NANOS_PER_SEC,
    ;
    duration_new(secs as u64, rest as u32)
}

/// The nanoseconds elapsed since `epoch`.
pub fn nanos_since(epoch: &Instant) -> (nanos: u128)
    ensures
        nanos <= DURATION_MAX_NANOS,
{
    duration_as_nanos(&instant_elapsed(epoch))
}

} // verus!
