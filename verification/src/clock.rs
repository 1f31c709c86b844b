//! Reading the clock.

use std::time::Duration;
use vstd::prelude::*;
use web_time::Instant;

verus! {

/// `web_time::Instant`, a moment on the clock, held as it is.
#[verifier::external_type_specification]
#[verifier::external_body]
pub struct ExInstant(web_time::Instant);

/// Calls `web_time::Instant::now`, the present moment on a clock that does
/// not run backwards. Nothing is claimed of the moment.
#[verifier::external_body]
pub(crate) fn now() -> (moment: Instant) {
    Instant::now()
}

/// Calls `web_time::Instant::elapsed`, the time that has passed since the
/// moment. Nothing is claimed of the time.
#[verifier::external_body]
pub(crate) fn elapsed(since: &Instant) -> (waited: Duration) {
    since.elapsed()
}

/// The length of a span of time in nanoseconds: what
/// `std::time::Duration::as_nanos` gives.
pub uninterp spec fn span_nanos(span: Duration) -> u128;

/// Calls `std::time::Duration::as_nanos`, the length of a span of time in
/// whole nanoseconds, which depends on the span alone.
#[verifier::external_body]
pub(crate) fn nanos(span: &Duration) -> (count: u128)
    ensures
        count == span_nanos(*span),
{
    span.as_nanos()
}

} // verus!
