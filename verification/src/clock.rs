//! The current time.
use vstd::prelude::*;

use crate::types::Timestamp;

verus! {

/// `chrono::Utc::now`, as seconds and nanoseconds since the Unix epoch. Nothing
/// is said of the seconds: they come from the machine's clock, which must not
/// be set to a time before 1970. The nanoseconds stay below one second.
#[verifier::external_body]
pub(crate) fn utc_now() -> (now: Timestamp)
    ensures
        now.nanos < 1_000_000_000,
{
    let now = chrono::Utc::now();
    Timestamp { seconds: now.timestamp(), nanos: now.timestamp_subsec_nanos() }
}

} // verus!
