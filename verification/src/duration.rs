use std::time::Duration;

use vstd::prelude::*;

verus! {

/// The whole number of seconds in `duration`, as `Duration::as_secs` gives it.
pub uninterp spec fn duration_whole_secs(duration: Duration) -> u64;

/// Calls `std::time::Duration::as_secs`, which returns the whole seconds of a
/// duration (its fractional part dropped); the result is named, not computed.
#[verifier::external_body]
pub(crate) fn duration_as_secs(duration: &Duration) -> (secs: u64)
    ensures
        secs == duration_whole_secs(*duration),
{
    duration.as_secs()
}

/// Calls `std::time::Duration::from_secs`, documented to build a duration of
/// exactly `secs` seconds, whose `as_secs` is therefore `secs`.
#[verifier::external_body]
pub(crate) fn duration_from_secs(secs: u64) -> (duration: Duration)
    ensures
        duration_whole_secs(duration) == secs,
{
    Duration::from_secs(secs)
}

} // verus!
