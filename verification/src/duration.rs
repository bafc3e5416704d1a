//! Spans of time, by the nanoseconds they last.

use core::time::Duration;
use vstd::prelude::*;

verus! {

/// How many nanoseconds a duration lasts.
pub uninterp spec fn nanos(duration: Duration) -> nat;

/// `Duration::as_nanos`: the whole duration in nanoseconds.
#[verifier::external_body]
pub(crate) fn as_nanos(duration: Duration) -> (count: u128)
    ensures
        count == nanos(duration),
{
    duration.as_nanos()
}

/// The whole milliseconds of a duration.
pub(crate) fn as_millis(duration: Duration) -> (count: u128)
    ensures
        count == nanos(duration) / 1_000_000,
{
    as_nanos(duration) / 1_000_000
}

/// `Duration::saturating_sub`: what is left of `whole` once `part` is gone, or nothing where
/// `part` is the longer one.
#[verifier::external_body]
pub(crate) fn saturating_sub(whole: Duration, part: Duration) -> (rest: Duration)
    ensures
        nanos(rest) == if nanos(part) <= nanos(whole) {
            (nanos(whole) - nanos(part)) as nat
        } else {
            0
        },
{
    whole.saturating_sub(part)
}

} // verus!
