//! The time of a change, in microseconds since the Unix epoch.

use vstd::prelude::*;

verus! {

/// Calls `chrono::Utc::now`, and `timestamp_micros` on what it returns.
/// Trusted: the clock is read after the epoch, so the count is not
/// negative; nothing else is known of it.
#[verifier::external_body]
pub(crate) fn current_time() -> (now: i64)
    ensures
        now >= 0,
{
    chrono::Utc::now().timestamp_micros()
}

} // verus!
