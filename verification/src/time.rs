//! Time spans built from whole seconds.
use vstd::prelude::*;
use std::time::{Duration, Instant, SystemTime};

verus! {

/// The span `std::time::Duration::from_secs(secs)`.
pub uninterp spec fn duration_of_secs(secs: u64) -> Duration;

/// Builds a span of whole seconds with `std::time::Duration::from_secs`.
///
/// Trusted: the result is the span that `Duration::from_secs` returns for
/// the argument, which depends on the argument alone.
#[verifier::external_body]
pub fn duration_from_secs(secs: u64) -> (d: Duration)
    ensures
        d == duration_of_secs(secs),
{
    Duration::from_secs(secs)
}

/// `Duration::clone`: a `Duration` is `Copy`, so its clone is the same span.
pub assume_specification [<std::time::Duration as std::clone::Clone>::clone](d: &Duration) -> (r: Duration)
    ensures
        r == *d,
;

#[verifier::external_type_specification]
#[verifier::external_body]
pub struct ExInstant(Instant);

#[verifier::external_type_specification]
#[verifier::external_body]
pub struct ExSystemTime(SystemTime);

/// `SystemTime::clone`: a `SystemTime` is `Copy`, so its clone is the same
/// time.
pub assume_specification [<std::time::SystemTime as std::clone::Clone>::clone](t: &SystemTime) -> (r: SystemTime)
    ensures
        r == *t,
;

/// The current instant (`Instant::now`). It depends on the clock, so
/// nothing is stated of it.
#[verifier::external_body]
pub(crate) fn instant_now() -> (r: Instant) {
    Instant::now()
}

/// The time elapsed since `start` (`Instant::elapsed`). It depends on the
/// clock, so nothing is stated of it.
#[verifier::external_body]
pub(crate) fn elapsed_since(start: &Instant) -> (r: Duration) {
    start.elapsed()
}

/// The debug form of a span (`{:?}` of `Duration`, such as `1.5s`).
pub uninterp spec fn duration_debug(d: Duration) -> Seq<char>;

/// Formats a span with `{:?}`.
///
/// Trusted: the text is std's `Debug` output for `Duration`, which depends
/// on the span alone, named by [`duration_debug`].
#[verifier::external_body]
pub(crate) fn debug_duration(d: Duration) -> (r: String)
    ensures
        r@ == duration_debug(d),
{
    format!("{:?}", d)
}

} // verus!
