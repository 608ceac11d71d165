//! `std::time` as the reactor uses it. Verus knows `Duration` and `SystemTime`
//! only as opaque values; the functions below are the calls into std, with what
//! its documentation says of them.

use std::time::{Duration, SystemTime};
use vstd::prelude::*;

verus! {

#[verifier::external_type_specification]
#[verifier::external_body]
pub struct ExSystemTime(SystemTime);

/// The length of a duration in whole nanoseconds, as `Duration::as_nanos`
/// reports it.
pub uninterp spec fn duration_nanos(d: Duration) -> nat;

/// The duration that `Duration::new` makes of whole seconds and additional
/// nanoseconds.
pub uninterp spec fn duration_of(secs: u64, nanos: u32) -> Duration;

/// No time at all: the duration of zero seconds and zero nanoseconds.
pub open spec fn no_time() -> Duration {
    duration_of(0, 0)
}

/// The quotient that `Duration::checked_div` returns.
pub uninterp spec fn duration_div(d: Duration, rhs: u32) -> Option<Duration>;

/// `Duration::new`, for a nanosecond part below one second: nothing is then
/// carried into the seconds, so the call cannot overflow. The result lasts
/// `secs` seconds and `nanos` nanoseconds.
#[verifier::external_body]
pub(crate) fn new_duration(secs: u64, nanos: u32) -> (d: Duration)
    requires
        nanos < 1_000_000_000,
    ensures
        d == duration_of(secs, nanos),
        duration_nanos(d) == secs as nat * 1_000_000_000 + nanos as nat,
{
    Duration::new(secs, nanos)
}

/// `Duration::as_millis`: the whole milliseconds contained in the duration.
#[verifier::external_body]
pub(crate) fn whole_millis(d: &Duration) -> (ms: u128)
    ensures
        ms == duration_nanos(*d) / 1_000_000,
{
    d.as_millis()
}

/// `Duration::checked_div`: `None` only for a zero divisor.
#[verifier::external_body]
pub(crate) fn divide(d: &Duration, rhs: u32) -> (q: Option<Duration>)
    ensures
        q == duration_div(*d, rhs),
        rhs != 0 ==> q is Some,
{
    d.checked_div(rhs)
}

/// `>` on durations: whether the first is strictly longer than the second.
#[verifier::external_body]
pub(crate) fn longer(a: &Duration, b: &Duration) -> (r: bool)
    ensures
        r == (duration_nanos(*a) > duration_nanos(*b)),
{
    a > b
}

/// `SystemTime::now`. Nothing is known of the clock's reading.
#[verifier::external_body]
pub(crate) fn now() -> SystemTime {
    SystemTime::now()
}

/// `SystemTime::duration_since`: the time from `earlier` to `later`, or `None`
/// where the clock went backwards between the two readings.
#[verifier::external_body]
pub(crate) fn elapsed_between(later: &SystemTime, earlier: &SystemTime) -> Option<Duration> {
    later.duration_since(*earlier).ok()
}

} // verus!
