//! The wall clock.

use vstd::prelude::*;

verus! {

/// Relies on tari_utilities::epoch_time::EpochTime::now: the current
/// wall-clock time in whole seconds since the Unix epoch. Nothing is
/// promised of the value; callers state what holds of every reading.
#[verifier::external_body]
pub(crate) fn epoch_seconds_now() -> u64 {
    tari_utilities::epoch_time::EpochTime::now().as_u64()
}

} // verus!
