use std::time::{Duration, Instant};
use vstd::prelude::*;

verus! {

/// `std::time::Instant`, a reading of the monotonic clock.
#[verifier::external_type_specification]
#[verifier::external_body]
pub struct ExInstant(Instant);

/// What `Instant::saturating_duration_since` gives for two readings: the
/// time from `earlier` to `later`, zero when `later` is not after `earlier`.
pub uninterp spec fn duration_between(later: Instant, earlier: Instant) -> Duration;

/// What `Duration::as_millis` gives for a duration: its whole milliseconds.
pub uninterp spec fn millis_of(d: Duration) -> u128;

/// The whole milliseconds from `earlier` to `later`, zero when `later` is
/// not after `earlier`.
pub open spec fn elapsed_ms(later: Instant, earlier: Instant) -> u128 {
    millis_of(duration_between(later, earlier))
}

/// Calls `Instant::now`. The reading depends on the time of the call, so
/// nothing is stated of it.
#[verifier::external_body]
pub(crate) fn now() -> Instant {
    Instant::now()
}

/// Calls `Instant::saturating_duration_since`, which never panics; trusted
/// to return the duration that `duration_between` names for its arguments.
#[verifier::external_body]
pub(crate) fn duration_since(later: &Instant, earlier: &Instant) -> (r: Duration)
    ensures
        r == duration_between(*later, *earlier),
{
    later.saturating_duration_since(*earlier)
}

/// Calls `Duration::as_millis`; trusted to return the number that
/// `millis_of` names for its argument.
#[verifier::external_body]
pub(crate) fn as_millis(d: &Duration) -> (r: u128)
    ensures
        r == millis_of(*d),
{
    d.as_millis()
}

/// The whole milliseconds from `earlier` to `later`, zero when `later` is
/// not after `earlier`.
pub(crate) fn millis_between(later: &Instant, earlier: &Instant) -> (r: u128)
    ensures
        r == elapsed_ms(*later, *earlier),
{
    let d = duration_since(later, earlier);
    as_millis(&d)
}

} // verus!
