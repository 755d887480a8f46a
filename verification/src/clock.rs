//! The monotonic clock of the standard library.
//!
//! An `Instant` is carried as an opaque value. Reading the clock gives a
//! different answer on every call, so nothing is promised about a reading.
//! The time between two instants depends on the two instants alone; it has
//! a name, `span`.

use std::time::Duration;
use std::time::Instant;
use vstd::prelude::*;

verus! {

/// `std::time::Instant`, carried as an opaque value.
#[verifier::external_type_specification]
#[verifier::external_body]
pub struct ExInstant(std::time::Instant);

/// The time from `earlier` to `later`; no time at all if `earlier` is the
/// later of the two.
pub uninterp spec fn span(later: Instant, earlier: Instant) -> Duration;

/// `Instant::now`: the current reading of the clock. Nothing is claimed of
/// the value.
#[verifier::external_body]
pub(crate) fn now() -> Instant {
    Instant::now()
}

/// `Instant::saturating_duration_since`: the time from `earlier` to
/// `later`, which depends on the two instants alone.
#[verifier::external_body]
pub(crate) fn since(later: &Instant, earlier: &Instant) -> (length: Duration)
    ensures
        length == span(*later, *earlier),
{
    later.saturating_duration_since(*earlier)
}

} // verus!
