//! The wall clock, read through chrono. Times are nanoseconds since the Unix
//! epoch; durations are nanoseconds.
use vstd::prelude::*;

verus! {

/// Nanoseconds in a second.
pub const NANOS_PER_SECOND: i64 = 1_000_000_000;

/// Nanoseconds in an hour.
pub const NANOS_PER_HOUR: i64 = 3_600_000_000_000;

/// Nanoseconds in a day.
pub const NANOS_PER_DAY: i64 = 86_400_000_000_000;

/// Relies on chrono::Utc::now and DateTime::timestamp_nanos_opt: the current time in
/// nanoseconds since the Unix epoch, `None` once that no longer fits an `i64`.
/// Nothing is promised of its value.
#[verifier::external_body]
fn read_clock() -> (r: Option<i64>) {
    chrono::Utc::now().timestamp_nanos_opt()
}

/// The current time in nanoseconds since the Unix epoch (`i64::MAX` beyond 2262).
pub(crate) fn now() -> (r: i64) {
    match read_clock() {
        Some(t) => t,
        None => i64::MAX,
    }
}

/// `t + d`, saturated to the range of `i64`.
pub open spec fn spec_offset(t: i64, d: i64) -> i64 {
    if t + d > i64::MAX {
        i64::MAX
    } else if t + d < i64::MIN {
        i64::MIN
    } else {
        (t + d) as i64
    }
}

/// Adds a duration to a time, saturating at the ends of `i64`.
pub fn offset(t: i64, d: i64) -> (r: i64)
    ensures
        r == spec_offset(t, d),
{
    let s: i128 = t as i128 + d as i128;
    if s > i64::MAX as i128 {
        i64::MAX
    } else if s < i64::MIN as i128 {
        i64::MIN
    } else {
        s as i64
    }
}

/// `later - earlier` as an exact integer (it may exceed `i64`).
pub fn elapsed(earlier: i64, later: i64) -> (r: i128)
    ensures
        r == later - earlier,
{
    later as i128 - earlier as i128
}

} // verus!
