//! Wall-clock time as whole seconds since the Unix epoch, and the fixed
//! validity window of tokens and sessions.

use vstd::prelude::*;

verus! {

/// Seconds for which a verification token or a session stays valid: 24 hours.
pub const VALIDITY_WINDOW_SECS: i64 = 86400;

/// Reads the clock with `Utc::now` of the `chrono` crate and converts the
/// instant to seconds since the epoch with `timestamp`. Nothing is claimed of
/// the value: two readings may differ in any way. `chrono` ends the program
/// where the system clock stands before the epoch.
#[verifier::external_body]
pub(crate) fn now() -> i64 {
    chrono::Utc::now().timestamp()
}

/// The instant one validity window after `now`, where an `i64` can hold it.
pub open spec fn spec_expiry_after(now: i64) -> Option<i64> {
    if now + VALIDITY_WINDOW_SECS <= i64::MAX {
        Some((now + VALIDITY_WINDOW_SECS) as i64)
    } else {
        None
    }
}

/// The instant at which something issued at `now` expires.
pub fn expiry_after(now: i64) -> (expiry: Option<i64>)
    ensures
        expiry == spec_expiry_after(now),
{
    now.checked_add(VALIDITY_WINDOW_SECS)
}

} // verus!
