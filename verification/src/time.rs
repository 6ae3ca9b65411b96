//! Points in time, as the rules compare and shift them.
//!
//! An instant is a count of seconds since the Unix epoch (UTC) with the
//! nanoseconds within that second, as the application's clock gives them.
use vstd::prelude::*;

verus! {

/// Seconds per day.
pub const SECONDS_PER_DAY: i64 = 86400;

/// An instant: seconds since the Unix epoch and nanoseconds within the second.
#[derive(Debug, Clone, Copy, PartialEq, Eq)]
pub struct Instant {
    pub secs: i64,
    pub nanos: u32,
}

/// `a` is strictly later than `b`.
pub open spec fn is_after(a: Instant, b: Instant) -> bool {
    a.secs > b.secs || (a.secs == b.secs && a.nanos > b.nanos)
}

/// `a` is strictly later than `b`.
pub fn later_than(a: Instant, b: Instant) -> (r: bool)
    ensures
        r == is_after(a, b),
{
    a.secs > b.secs || (a.secs == b.secs && a.nanos > b.nanos)
}

/// The whole seconds from `b` to a later `a`.
pub open spec fn whole_seconds_between(a: Instant, b: Instant) -> int {
    a.secs - b.secs - (if a.nanos < b.nanos {
        1int
    } else {
        0int
    })
}

/// The whole days from `b` to a later `a` (the seconds between them divided
/// by a day's, rounded down).
pub open spec fn whole_days_between(a: Instant, b: Instant) -> int {
    whole_seconds_between(a, b) / (SECONDS_PER_DAY as int)
}

/// The whole days from `b` to `a`, where `a` is later.
pub fn days_between(a: Instant, b: Instant) -> (r: i64)
    requires
        is_after(a, b),
    ensures
        r == whole_days_between(a, b),
        r >= 0,
{
    let borrow: i64 = if a.nanos < b.nanos {
        1
    } else {
        0
    };
    // `a.secs - b.secs` may exceed `i64::MAX`, so it is taken in `i128`.
    let secs: i128 = (a.secs as i128) - (b.secs as i128) - (borrow as i128);
    let days: i128 = secs / (SECONDS_PER_DAY as i128);
    assert(0 <= secs);
    assert(days <= secs);
    assert(secs <= (i64::MAX as int) - (i64::MIN as int));
    assert(days <= i64::MAX) by (nonlinear_arith)
        requires
            0 <= secs <= (i64::MAX as int) - (i64::MIN as int),
            days == secs / 86400,
    ;
    days as i64
}

/// Instants whose shift by any number of days that fits an `i32` stays in range.
pub open spec fn shiftable(t: Instant) -> bool {
    (i64::MIN as int) + 0x8000_0000 * (SECONDS_PER_DAY as int) <= t.secs <= (i64::MAX as int)
        - 0x8000_0000 * (SECONDS_PER_DAY as int)
}

/// `t` shifted by a number of days.
pub open spec fn plus_days(t: Instant, days: int) -> Instant {
    Instant { secs: (t.secs + days * (SECONDS_PER_DAY as int)) as i64, nanos: t.nanos }
}

/// `t` shifted by `days` days.
pub fn add_days(t: Instant, days: i32) -> (r: Instant)
    requires
        shiftable(t),
    ensures
        r == plus_days(t, days as int),
{
    let shift: i64 = (days as i64) * SECONDS_PER_DAY;
    Instant { secs: t.secs + shift, nanos: t.nanos }
}

} // verus!
