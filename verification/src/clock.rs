//! The time of day.

use vstd::prelude::*;

verus! {

/// The present moment in seconds since the Unix epoch.
///
/// Trusted: calls `chrono::Utc::now` and `DateTime::timestamp`. The
/// reading is never before the epoch, since `now` takes the time that has
/// passed since then; nothing else is claimed of it, and two readings may
/// differ in either direction.
#[verifier::external_body]
pub(crate) fn unix_now() -> (now: i64)
    ensures
        now >= 0,
{
    chrono::Utc::now().timestamp()
}

} // verus!
