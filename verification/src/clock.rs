//! Readings of the monotonic clock.

use std::time::{Duration, Instant};
use vstd::prelude::*;

verus! {

#[verifier::external_type_specification]
#[verifier::external_body]
pub struct ExInstant(Instant);

/// `Instant::now`: the current reading of the monotonic clock. Nothing is
/// promised of the value.
#[verifier::external_body]
pub(crate) fn now() -> (t: Instant) {
    Instant::now()
}

/// `Instant::elapsed`: the time that has passed since `t`. Nothing is
/// promised of the value; it depends on when the call is made.
#[verifier::external_body]
pub(crate) fn elapsed(t: &Instant) -> (d: Duration) {
    t.elapsed()
}

/// The whole seconds of a duration.
pub uninterp spec fn duration_secs(d: Duration) -> u64;

/// The whole milliseconds of a duration.
pub uninterp spec fn duration_millis(d: Duration) -> u128;

/// `Duration::as_secs`: the whole seconds of a duration; it depends on the
/// duration alone.
#[verifier::external_body]
pub(crate) fn whole_secs(d: &Duration) -> (s: u64)
    ensures
        s == duration_secs(*d),
{
    d.as_secs()
}

/// `Duration::as_millis`: the whole milliseconds of a duration; it
/// depends on the duration alone.
#[verifier::external_body]
pub(crate) fn whole_millis(d: &Duration) -> (ms: u128)
    ensures
        ms == duration_millis(*d),
{
    d.as_millis()
}

/// The duration that `Duration::from_millis` makes of a number of
/// milliseconds.
pub uninterp spec fn millis_duration(ms: u64) -> Duration;

/// `Duration::from_millis`: the duration of `ms` milliseconds, which holds
/// `ms / 1000` whole seconds and `ms` whole milliseconds.
#[verifier::external_body]
pub(crate) fn duration_from_millis(ms: u64) -> (d: Duration)
    ensures
        d == millis_duration(ms),
        duration_secs(d) == ms / 1000,
        duration_millis(d) == ms,
{
    Duration::from_millis(ms)
}

} // verus!
