//! The wall clock.

use chrono::Utc;
use vstd::prelude::*;

verus! {

/// Calls `Utc::now().timestamp()` of `chrono`: the seconds since the Unix
/// epoch as the system clock reads them now. The reading differs from call to
/// call, so nothing is claimed of it.
#[verifier::external_body]
pub(crate) fn unix_now() -> i64 {
    Utc::now().timestamp()
}

} // verus!
