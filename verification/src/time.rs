//! Spans of time as the driver sees them: a whole number of nanoseconds.
//!
//! `Duration` and `Instant` are opaque to the verifier. Everything this
//! crate proves about a span goes through [`duration_nanos`], and about the
//! time between two readings of the clock through [`instant_gap`]. The
//! specifications below say how the few methods that the driver calls act
//! on them.
use bevy_utils::{Duration, Instant};
use vstd::prelude::*;

verus! {

/// The whole nanoseconds that a `Duration` holds, which is what
/// `Duration::as_nanos` returns.
pub uninterp spec fn duration_nanos(d: Duration) -> nat;

/// `Duration::as_nanos`: the total number of nanoseconds in the span.
pub assume_specification[ Duration::as_nanos ](d: &Duration) -> (n: u128)
    ensures
        n == duration_nanos(*d),
;

/// `Duration::from_millis`: a span of the given number of whole
/// milliseconds, each of which is a million nanoseconds.
pub assume_specification[ Duration::from_millis ](millis: u64) -> (d: Duration)
    ensures
        duration_nanos(d) == millis * 1_000_000,
;

/// `Duration::saturating_sub`: the difference of two spans, or the zero span
/// where the second is the longer one.
pub assume_specification[ Duration::saturating_sub ](d: Duration, rhs: Duration) -> (r: Duration)
    ensures
        duration_nanos(r) == if duration_nanos(d) >= duration_nanos(rhs) {
            duration_nanos(d) - duration_nanos(rhs)
        } else {
            0
        },
;

/// `std::time::Instant`, held as an opaque value.
#[verifier::external_type_specification]
#[verifier::external_body]
pub struct ExInstant(std::time::Instant);

/// `Instant::now`: the current reading of the monotonic clock. Nothing is
/// claimed of the reading.
pub assume_specification[ Instant::now ]() -> (t: Instant);

/// The nanoseconds from the instant `earlier` to the instant `later`, zero
/// where `earlier` is the later one: what
/// `Instant::saturating_duration_since` returns, as a number.
pub uninterp spec fn instant_gap(later: Instant, earlier: Instant) -> nat;

/// `Instant::saturating_duration_since`: the time from `earlier` to `t`, zero
/// where `earlier` is the later one. The span depends on the two instants
/// alone.
pub assume_specification[ Instant::saturating_duration_since ](t: &Instant, earlier: Instant) -> (d:
    Duration)
    ensures
        duration_nanos(d) == instant_gap(*t, earlier),
;

/// The nanoseconds of an optional span.
pub open spec fn option_nanos(d: Option<Duration>) -> Option<nat> {
    match d {
        Some(d) => Some(duration_nanos(d)),
        None => None,
    }
}

/// The longer of two spans; the first where they are equally long.
pub fn longer(a: Duration, b: Duration) -> (r: Duration)
    ensures
        r == (if duration_nanos(a) >= duration_nanos(b) { a } else { b }),
{
    if a.as_nanos() >= b.as_nanos() {
        a
    } else {
        b
    }
}

} // verus!
