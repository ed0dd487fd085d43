//! Time sources: the calendar date and a monotonic clock.
//!
//! Everything here depends on the machine's clock, so the wrappers promise
//! only what holds of every reading.

use vstd::prelude::*;

use crate::report::Date;

verus! {

/// A reading of the monotonic clock (`std::time::Instant`), opaque to the
/// library; only the duration between two readings is ever inspected.
#[verifier::external_type_specification]
#[verifier::external_body]
pub struct ExInstant(std::time::Instant);

/// Relies on `std::time::Instant::now`: a reading of the monotonic clock.
/// Nothing is promised of the reading itself.
#[verifier::external_body]
pub fn instant_now() -> std::time::Instant {
    std::time::Instant::now()
}

/// Relies on `std::time::Instant::saturating_duration_since`: the span from
/// `earlier` to `later`, or zero if `later` is the earlier reading.
#[verifier::external_body]
pub fn saturating_duration_since(
    later: &std::time::Instant,
    earlier: &std::time::Instant,
) -> std::time::Duration {
    later.saturating_duration_since(*earlier)
}

/// Relies on `std::time::Duration::as_nanos`: the span as a whole number of
/// nanoseconds.
#[verifier::external_body]
pub fn duration_as_nanos(duration: &std::time::Duration) -> u128 {
    duration.as_nanos()
}

/// Relies on `chrono::Local::now` and chrono's `Datelike` accessors, whose
/// documentation puts months in 1..=12 and days of the month in 1..=31.
#[verifier::external_body]
pub fn today() -> (r: Date)
    ensures
        r.wf(),
{
    let now = chrono::Local::now().date_naive();
    Date {
        year: chrono::Datelike::year(&now),
        month: chrono::Datelike::month(&now) as u8,
        day: chrono::Datelike::day(&now) as u8,
    }
}

} // verus!
