//! What this library reads of `core::time::Duration`: its whole seconds and
//! the nanoseconds within the last second.

use vstd::prelude::*;
use core::time::Duration;

verus! {

/// The whole seconds of a duration, as `Duration::as_secs` gives them.
pub uninterp spec fn duration_secs(d: Duration) -> u64;

/// The nanoseconds within the last second of a duration, as
/// `Duration::subsec_nanos` gives them.
pub uninterp spec fn duration_subsec(d: Duration) -> u32;

/// The whole length of a duration in nanoseconds.
pub open spec fn nanos_of(d: Duration) -> int {
    duration_secs(d) * 1_000_000_000 + duration_subsec(d)
}

/// Calls `Duration::as_secs`: the whole seconds of the duration.
#[verifier::external_body]
pub(crate) fn duration_as_secs(d: &Duration) -> (r: u64)
    ensures
        r == duration_secs(*d),
{
    d.as_secs()
}

/// Calls `Duration::subsec_nanos`: the nanoseconds within the last second,
/// which its documentation promises are below one second.
#[verifier::external_body]
pub(crate) fn duration_subsec_nanos(d: &Duration) -> (r: u32)
    ensures
        r == duration_subsec(*d),
        r < 1_000_000_000,
{
    d.subsec_nanos()
}

/// Calls `Duration::new`, which gives the duration of `secs` seconds and
/// `nanos` nanoseconds. It panics only when the nanoseconds carry into
/// seconds that overflow, which can't happen below one second.
#[verifier::external_body]
pub(crate) fn duration_new(secs: u64, nanos: u32) -> (r: Duration)
    requires
        nanos < 1_000_000_000,
    ensures
        duration_secs(r) == secs,
        duration_subsec(r) == nanos,
{
    Duration::new(secs, nanos)
}

/// Calls `Duration::as_nanos`: the whole length of the duration in nanoseconds.
#[verifier::external_body]
pub(crate) fn duration_as_nanos(d: &Duration) -> (r: u128)
    ensures
        r == nanos_of(*d),
{
    d.as_nanos()
}

/// Calls `Duration / 2`, dividing the duration by two, which can't panic:
/// the divisor isn't zero. The result is the length halved, rounded down to
/// a whole nanosecond.
#[verifier::external_body]
pub(crate) fn duration_half(d: Duration) -> (r: Duration)
    ensures
        nanos_of(r) == nanos_of(d) / 2,
{
    d / 2
}

} // verus!
