//! The wall clock.

use vstd::prelude::*;

verus! {

/// Calls `chrono::Utc::now` and takes its Unix timestamp, in seconds.
///
/// Relied upon: the timestamp is not negative. `Utc::now` does not return
/// when the system clock stands before the epoch.
#[verifier::external_body]
pub(crate) fn unix_now() -> (seconds: i64)
    ensures
        seconds >= 0,
{
    chrono::Utc::now().timestamp()
}

} // verus!
