//! The clock that replies are stamped with.

use crate::attr::Timestamp;
use vstd::prelude::*;

verus! {

/// Nanoseconds in a second.
pub const NSEC_PER_SEC: i32 = 1_000_000_000;

/// What holds of every reading of the clock: its nanoseconds lie within the
/// second.
pub open spec fn is_clock_reading(t: Timestamp) -> bool {
    0 <= t.nsec < NSEC_PER_SEC
}

/// Calls `time::get_time` and copies the two fields of the `Timespec` it
/// returns. The reading differs from call to call; `time` builds it with
/// `Timespec::new`, which lets no value through whose nanoseconds are
/// negative or reach a full second.
#[verifier::external_body]
pub(crate) fn get_time() -> (now: Timestamp)
    ensures
        is_clock_reading(now),
{
    let now = time::get_time();
    Timestamp { sec: now.sec, nsec: now.nsec }
}

} // verus!
