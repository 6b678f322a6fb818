//! Wall-clock access, and the range within which every timestamp the library
//! handles is known to lie.

use vstd::prelude::*;

verus! {

/// An upper bound (in seconds since the Unix epoch) on every timestamp the
/// library stores. `chrono` only represents dates up to year 262142, whose
/// timestamp is below 8.3e12, so this bound is conservative.
pub const TIMESTAMP_LIMIT: i64 = 9_000_000_000_000;

/// A plausible wall-clock reading: non-negative and within `chrono`'s
/// representable range.
pub open spec fn ts_in_range(t: int) -> bool {
    0 <= t <= TIMESTAMP_LIMIT as int
}

/// A timestamp slot that, when present, holds a plausible wall-clock reading.
pub open spec fn ts_opt_in_range(t: Option<int>) -> bool {
    t matches Some(v) ==> ts_in_range(v)
}

/// Relies on `chrono::Utc::now` and `DateTime::timestamp`: the current wall
/// clock in whole seconds since the Unix epoch. `Utc::now` builds its result
/// from `SystemTime::now().duration_since(UNIX_EPOCH)` (a non-negative number
/// of seconds) and range-checks it through `DateTime::from_timestamp`, whose
/// accepted range stays below `TIMESTAMP_LIMIT`; it aborts the process when
/// the system clock reads before the epoch.
#[verifier::external_body]
pub(crate) fn now_timestamp() -> (t: i64)
    ensures
        ts_in_range(t as int),
{
    chrono::Utc::now().timestamp()
}

} // verus!
