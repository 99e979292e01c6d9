//! The wall clock, read through jiff.
use vstd::prelude::*;

verus! {

/// The current wall-clock time in whole seconds since the Unix epoch.
/// Relies on jiff's `Timestamp::now`, converted by `Timestamp::as_second`;
/// nothing is assumed of the value.
#[verifier::external_body]
pub(crate) fn unix_seconds_now() -> (r: i64) {
    jiff::Timestamp::now().as_second()
}

} // verus!
