//! Instants and spans as integers, and the calendar facts the controller
//! reads from them.
//!
//! An instant is a count of nanoseconds since 1970-01-01T00:00:00Z, held as
//! an `i128`. A span between two instants is counted the way `chrono`'s
//! `TimeDelta` counts it: whole seconds and whole days are truncated toward
//! zero.

use chrono::{Datelike, Timelike};
use vstd::prelude::*;

verus! {

/// Nanoseconds in one second.
pub const NANOS_PER_SECOND: i128 = 1_000_000_000i128;

/// Nanoseconds in one minute.
pub const NANOS_PER_MINUTE: i128 = 60_000_000_000i128;

/// Nanoseconds in one hour.
pub const NANOS_PER_HOUR: i128 = 3_600_000_000_000i128;

/// Seconds in one day.
pub const SECONDS_PER_DAY: i64 = 86_400i64;

/// The first Unix second of the calendar that `chrono` represents
/// (-262143-01-01T00:00:00Z).
pub const MIN_CALENDAR_SECOND: i64 = -8_334_601_228_800i64;

/// The last Unix second of the calendar that `chrono` represents
/// (+262142-12-31T23:59:59Z).
pub const MAX_CALENDAR_SECOND: i64 = 8_210_266_876_799i64;

/// Division that truncates toward zero, as Rust's integer `/` does.
pub open spec fn div_toward_zero(a: int, b: int) -> int
    recommends
        b > 0,
{
    if a >= 0 {
        a / b
    } else {
        -((-a) / b)
    }
}

/// Whole seconds in a span of `d` nanoseconds, truncated toward zero.
pub open spec fn whole_seconds(d: int) -> int {
    div_toward_zero(d, NANOS_PER_SECOND as int)
}

/// Whole days in a span of `d` nanoseconds: its whole seconds divided by
/// 86 400, truncated toward zero.
pub open spec fn whole_days(d: int) -> int {
    div_toward_zero(whole_seconds(d), SECONDS_PER_DAY as int)
}

/// The calendar second that holds instant `t` (rounded toward the past).
pub open spec fn calendar_second(t: int) -> int {
    t / (NANOS_PER_SECOND as int)
}

/// Whether `t` lies inside the calendar this library covers.
pub open spec fn is_instant(t: int) -> bool {
    MIN_CALENDAR_SECOND <= calendar_second(t) <= MAX_CALENDAR_SECOND
}

/// Day of the week of the calendar second `s`, Monday = 0 ... Sunday = 6.
/// The Unix epoch fell on a Thursday.
pub open spec fn weekday_of_second(s: int) -> int {
    (s / (SECONDS_PER_DAY as int) + 3) % 7
}

/// Hour of the day (UTC) of the calendar second `s`.
pub open spec fn hour_of_second(s: int) -> int {
    (s % (SECONDS_PER_DAY as int)) / 3600
}

/// Day of the week (Monday = 0) of the instant `t`.
pub open spec fn weekday_of(t: int) -> int {
    weekday_of_second(calendar_second(t))
}

/// Hour of the day (UTC) of the instant `t`.
pub open spec fn hour_of(t: int) -> int {
    hour_of_second(calendar_second(t))
}

/// Day of the week and hour of the day of a Unix timestamp, read through
/// `chrono::DateTime::<Utc>::from_timestamp`, `Datelike::weekday` (as days
/// from Monday) and `Timelike::hour`.
///
/// Claimed of chrono: a Unix timestamp counts non-leap seconds, so day
/// number `secs.div_euclid(86400)` is a calendar day, the epoch day is a
/// Thursday, and the hour is the seconds within that day divided by 3600.
/// Between the first and the last second of chrono's calendar
/// `from_timestamp` returns `Some`.
#[verifier::external_body]
fn utc_weekday_and_hour(secs: i64) -> (r: (u32, u32))
    requires
        MIN_CALENDAR_SECOND <= secs <= MAX_CALENDAR_SECOND,
    ensures
        r.0 == weekday_of_second(secs as int),
        r.1 == hour_of_second(secs as int),
{
    let dt = chrono::DateTime::from_timestamp(secs, 0).unwrap();
    (dt.weekday().num_days_from_monday(), dt.hour())
}

/// `t` divided by `b`, rounded toward the past.
pub fn floor_div(t: i128, b: i128) -> (q: i128)
    requires
        b > 0,
        -9_000_000_000_000_000_000_000 < t < 9_000_000_000_000_000_000_000,
        b < 9_000_000_000_000_000_000_000,
    ensures
        q as int == t as int / b as int,
{
    if t >= 0 {
        t / b
    } else {
        let m: i128 = -t;
        let r: i128 = (m + b - 1) / b;
        proof {
            lemma_floor_of_negative(t as int, b as int);
        }
        -r
    }
}

/// The calendar second that holds instant `t`.
pub fn calendar_second_of(t: i128) -> (s: i64)
    requires
        is_instant(t as int),
    ensures
        s as int == calendar_second(t as int),
{
    proof {
        lemma_instant_bounds(t as int);
    }
    let q = floor_div(t, NANOS_PER_SECOND);
    q as i64
}

/// For a negative numerator, rounding toward the past is the negated
/// ceiling of the magnitude.
proof fn lemma_floor_of_negative(t: int, b: int)
    requires
        t < 0,
        b > 0,
    ensures
        t / b == -((-t + b - 1) / b),
{
    let m = -t;
    let c = (m + b - 1) / b;
    vstd::arithmetic::div_mod::lemma_fundamental_div_mod(m + b - 1, b);
    vstd::arithmetic::div_mod::lemma_fundamental_div_mod(t, b);
    let r1 = (m + b - 1) % b;
    let q = t / b;
    let r = t % b;
    // t == b*q + r with 0 <= r < b, and m + b - 1 == b*c + r1 with 0 <= r1 < b
    assert(b * q + r == t);
    assert(b * c + r1 == m + b - 1);
    // so b*(q + c) == b - 1 - r - r1, which lies strictly between -b and b
    assert(b * (q + c) == b - 1 - r - r1) by (nonlinear_arith)
        requires
            b * q + r == t,
            b * c + r1 == -t + b - 1,
    ;
    assert(q + c == 0) by (nonlinear_arith)
        requires
            b * (q + c) == b - 1 - r - r1,
            0 <= r < b,
            0 <= r1 < b,
            b > 0,
    ;
}

/// Whole seconds from `earlier` to `later`, truncated toward zero.
pub fn whole_seconds_between(earlier: i128, later: i128) -> (s: i128)
    requires
        is_instant(earlier as int),
        is_instant(later as int),
    ensures
        s as int == whole_seconds(later - earlier),
{
    proof {
        lemma_instant_bounds(earlier as int);
        lemma_instant_bounds(later as int);
    }
    let d: i128 = later - earlier;
    if d >= 0 {
        d / NANOS_PER_SECOND
    } else {
        let m: i128 = -d;
        -(m / NANOS_PER_SECOND)
    }
}

/// Whole days from `earlier` to `later`, truncated toward zero.
pub fn whole_days_between(earlier: i128, later: i128) -> (n: i128)
    requires
        is_instant(earlier as int),
        is_instant(later as int),
    ensures
        n as int == whole_days(later - earlier),
{
    let s = whole_seconds_between(earlier, later);
    if s >= 0 {
        s / (SECONDS_PER_DAY as i128)
    } else {
        let m: i128 = -s;
        -(m / (SECONDS_PER_DAY as i128))
    }
}

/// An instant of the covered calendar is bounded well inside `i128`.
pub proof fn lemma_instant_bounds(t: int)
    requires
        is_instant(t),
    ensures
        -9_000_000_000_000_000_000_000 < t < 9_000_000_000_000_000_000_000,
{
    let b = NANOS_PER_SECOND as int;
    vstd::arithmetic::div_mod::lemma_fundamental_div_mod(t, b);
    assert(t == b * (t / b) + t % b);
    assert(-9_000_000_000_000_000_000_000 < t < 9_000_000_000_000_000_000_000) by (nonlinear_arith)
        requires
            t == b * (t / b) + t % b,
            0 <= t % b < b,
            b == 1_000_000_000,
            -8_334_601_228_800 <= t / b <= 8_210_266_876_799,
    ;
}

/// Day of the week (Monday = 0) and hour of the day (UTC) of instant `t`.
pub fn weekday_and_hour(t: i128) -> (r: (u32, u32))
    requires
        is_instant(t as int),
    ensures
        r.0 as int == weekday_of(t as int),
        r.1 as int == hour_of(t as int),
        r.0 < 7,
        r.1 < 24,
{
    let s = calendar_second_of(t);
    let r = utc_weekday_and_hour(s);
    proof {
        assert(0 <= (s as int) % 86400 < 86400);
    }
    r
}

} // verus!

verus! {

/// Whether `t` lies inside the covered calendar.
pub fn is_calendar_instant(t: i128) -> (b: bool)
    ensures
        b == is_instant(t as int),
{
    let lo: i128 = (MIN_CALENDAR_SECOND as i128) * NANOS_PER_SECOND;
    let hi: i128 = (MAX_CALENDAR_SECOND as i128) * NANOS_PER_SECOND + (NANOS_PER_SECOND - 1);
    proof {
        lemma_instant_window(t as int);
    }
    lo <= t && t <= hi
}

/// An instant lies in the calendar exactly when it lies between the first
/// nanosecond of the first second and the last nanosecond of the last one.
proof fn lemma_instant_window(t: int)
    ensures
        is_instant(t) <==> (MIN_CALENDAR_SECOND * 1_000_000_000 <= t
            <= MAX_CALENDAR_SECOND * 1_000_000_000 + 999_999_999),
{
    let b = 1_000_000_000int;
    vstd::arithmetic::div_mod::lemma_fundamental_div_mod(t, b);
    let q = t / b;
    let r = t % b;
    assert(t == b * q + r);
    if MIN_CALENDAR_SECOND <= q {
        assert(MIN_CALENDAR_SECOND * b <= b * q) by (nonlinear_arith)
            requires MIN_CALENDAR_SECOND <= q, b > 0;
    } else {
        assert(b * q + r < MIN_CALENDAR_SECOND * b) by (nonlinear_arith)
            requires q < MIN_CALENDAR_SECOND, 0 <= r < b, b > 0;
    }
    if q <= MAX_CALENDAR_SECOND {
        assert(b * q <= MAX_CALENDAR_SECOND * b) by (nonlinear_arith)
            requires q <= MAX_CALENDAR_SECOND, b > 0;
    } else {
        assert(b * q >= (MAX_CALENDAR_SECOND + 1) * b) by (nonlinear_arith)
            requires q >= MAX_CALENDAR_SECOND + 1, b > 0;
    }
}

/// The instant `minutes` minutes after `t`.
pub fn plus_minutes(t: i128, minutes: u32) -> (r: i128)
    requires
        is_instant(t as int),
        is_instant(t + minutes * NANOS_PER_MINUTE),
    ensures
        r == t + minutes * NANOS_PER_MINUTE,
{
    proof {
        lemma_instant_bounds(t as int);
        lemma_instant_bounds(t + minutes * NANOS_PER_MINUTE);
    }
    t + (minutes as i128) * NANOS_PER_MINUTE
}

/// The instant `minutes` minutes before `t`.
pub fn minus_minutes(t: i128, minutes: u32) -> (r: i128)
    requires
        is_instant(t as int),
        is_instant(t - minutes * NANOS_PER_MINUTE),
    ensures
        r == t - minutes * NANOS_PER_MINUTE,
{
    proof {
        lemma_instant_bounds(t as int);
        lemma_instant_bounds(t - minutes * NANOS_PER_MINUTE);
    }
    t - (minutes as i128) * NANOS_PER_MINUTE
}

} // verus!
