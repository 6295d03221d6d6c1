//! Time units, their conversion to milliseconds, and the clock.
//!
//! All scheduling arithmetic in this crate is carried out on plain `i64`
//! values: an instant is a number of milliseconds since the Unix epoch, a
//! duration is a non-negative number of milliseconds.

use vstd::prelude::*;

verus! {

/// A unit of time accepted by the job builder.
///
/// Singular and plural names are synonyms with identical meaning; they exist
/// only for caller ergonomics.
#[allow(missing_docs)]
#[derive(Debug, Clone, Copy)]
pub enum TimeSpan {
    Millisecond,
    Milliseconds,
    Second,
    Seconds,
    Minute,
    Minutes,
    Hour,
    Hours,
    Day,
    Days,
    Week,
    Weeks,
}

/// How many milliseconds one `unit` lasts.
pub open spec fn unit_millis(unit: TimeSpan) -> int {
    match unit {
        TimeSpan::Millisecond | TimeSpan::Milliseconds => 1,
        TimeSpan::Second | TimeSpan::Seconds => 1000,
        TimeSpan::Minute | TimeSpan::Minutes => 60_000,
        TimeSpan::Hour | TimeSpan::Hours => 3_600_000,
        TimeSpan::Day | TimeSpan::Days => 86_400_000,
        TimeSpan::Week | TimeSpan::Weeks => 604_800_000,
    }
}

/// The exact duration, in milliseconds, of `n` of `unit`.
pub open spec fn span_millis(n: int, unit: TimeSpan) -> int {
    n * unit_millis(unit)
}

/// The instant `d` milliseconds after `t`, clamped to the representable
/// range.
pub open spec fn advance(t: int, d: int) -> int {
    if t + d > i64::MAX {
        i64::MAX as int
    } else if t + d < i64::MIN {
        i64::MIN as int
    } else {
        t + d
    }
}

/// The signed distance from `b` to `a`, clamped to the representable range.
pub open spec fn until(a: int, b: int) -> int {
    if a - b > i64::MAX {
        i64::MAX as int
    } else if a - b < i64::MIN {
        i64::MIN as int
    } else {
        a - b
    }
}

/// A span of a non-negative count of any unit is itself non-negative.
pub proof fn lemma_span_millis_nonneg(n: int, unit: TimeSpan)
    requires
        0 <= n,
    ensures
        0 <= span_millis(n, unit),
{
    let u = unit_millis(unit);
    assert(0 < u);
    assert(0 <= n * u) by (nonlinear_arith)
        requires
            0 <= n,
            0 < u,
    {
    }
}

/// Convert `n` of `unit` to milliseconds.
pub fn span_to_millis(n: i64, unit: TimeSpan) -> (r: i64)
    requires
        0 <= n,
        span_millis(n as int, unit) <= i64::MAX,
    ensures
        r == span_millis(n as int, unit),
{
    match unit {
        TimeSpan::Millisecond | TimeSpan::Milliseconds => n * 1,
        TimeSpan::Second | TimeSpan::Seconds => n * 1000,
        TimeSpan::Minute | TimeSpan::Minutes => n * 60_000,
        TimeSpan::Hour | TimeSpan::Hours => n * 3_600_000,
        TimeSpan::Day | TimeSpan::Days => n * 86_400_000,
        TimeSpan::Week | TimeSpan::Weeks => n * 604_800_000,
    }
}

/// Add a duration `d` to an instant `t`, saturating at the bounds of the
/// representable range.
pub fn advance_millis(t: i64, d: i64) -> (r: i64)
    ensures
        r as int == advance(t as int, d as int),
{
    let s: i128 = (t as i128) + (d as i128);
    if s > (i64::MAX as i128) {
        i64::MAX
    } else if s < (i64::MIN as i128) {
        i64::MIN
    } else {
        s as i64
    }
}

/// How many milliseconds lie between the instant `b` and the instant `a`
/// (negative when `a` is in the past of `b`), saturating at the bounds of
/// the representable range.
pub fn until_millis(a: i64, b: i64) -> (r: i64)
    ensures
        r as int == until(a as int, b as int),
{
    let s: i128 = (a as i128) - (b as i128);
    if s > (i64::MAX as i128) {
        i64::MAX
    } else if s < (i64::MIN as i128) {
        i64::MIN
    } else {
        s as i64
    }
}

/// The current wall-clock time, in milliseconds since the Unix epoch.
///
/// Relies on `chrono::Local::now` for the reading and
/// `DateTime::timestamp_millis` for the conversion; nothing is promised of
/// the value, since the clock may move arbitrarily between calls. Note
/// that `chrono::Local::now` panics on a host clock that reads before the
/// Unix epoch.
#[verifier::external_body]
pub fn now_millis() -> i64 {
    chrono::Local::now().timestamp_millis()
}

} // verus!
