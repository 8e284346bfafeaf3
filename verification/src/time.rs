//! Spans of time.
use std::time::Duration;

use vstd::prelude::*;

verus! {

/// The span of time that `Duration::from_secs` makes of a number of seconds.
pub uninterp spec fn duration_from_secs(secs: u64) -> Duration;

/// The whole seconds of a span, as `Duration::as_secs` returns them.
pub uninterp spec fn duration_secs(span: Duration) -> u64;

/// What a span holds beyond its whole seconds, in nanoseconds, as
/// `Duration::subsec_nanos` returns it.
pub uninterp spec fn duration_subsec_nanos(span: Duration) -> u32;

/// `std::time::Duration::from_secs` makes a span of the given number of whole
/// seconds, and nothing beyond them.
pub assume_specification[ Duration::from_secs ](secs: u64) -> (span: Duration)
    ensures
        span == duration_from_secs(secs),
        duration_secs(span) == secs,
        duration_subsec_nanos(span) == 0,
;

/// `std::time::Duration::as_secs` returns the whole seconds of a span.
pub assume_specification[ Duration::as_secs ](span: &Duration) -> (secs: u64)
    ensures
        secs == duration_secs(*span),
;

/// `std::time::Duration::subsec_nanos` returns what a span holds beyond its
/// whole seconds, in nanoseconds. That is always less than a second.
pub assume_specification[ Duration::subsec_nanos ](span: &Duration) -> (nanos: u32)
    ensures
        nanos == duration_subsec_nanos(*span),
        nanos < 1_000_000_000,
;

/// The length of a span in nanoseconds, by which spans are compared.
pub open spec fn duration_nanos(span: Duration) -> int {
    duration_secs(span) * 1_000_000_000 + duration_subsec_nanos(span)
}

/// The length of a span in nanoseconds, by which spans are compared.
pub fn nanos(span: Duration) -> (nanos: u128)
    ensures
        nanos == duration_nanos(span),
        nanos == duration_secs(span) * 1_000_000_000 + duration_subsec_nanos(span),
{
    let secs: u64 = span.as_secs();
    let subsec: u32 = span.subsec_nanos();
    secs as u128 * 1_000_000_000 + subsec as u128
}

} // verus!
