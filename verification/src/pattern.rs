//! The calendar side of the time-of-day usage histogram: which of the 168
//! hour-of-week buckets an instant falls into, which buckets an event is
//! smeared into, how many days of decay are due, and where the next
//! high-probability hour lies.
//!
//! The bucket weights themselves are floating-point and live with the
//! caller; this module decides where they are read and written.

use crate::time::{
    calendar_second, floor_div, hour_of, is_instant, lemma_instant_bounds, weekday_and_hour,
    weekday_of, NANOS_PER_HOUR, NANOS_PER_SECOND, SECONDS_PER_DAY,
};
use vstd::prelude::*;

verus! {

/// Number of hour-of-week buckets (7 days of 24 hours).
pub const BUCKET_COUNT: usize = 168usize;

/// Bucket of instant `t`: `weekday * 24 + hour`, Monday = 0, UTC.
pub open spec fn hour_of_week(t: int) -> int {
    weekday_of(t) * 24 + hour_of(t)
}

/// The bucket that holds instant `t`.
pub fn bucket_index(t: i128) -> (b: usize)
    requires
        is_instant(t as int),
    ensures
        b as int == hour_of_week(t as int),
        b < BUCKET_COUNT,
{
    let (weekday, hour) = weekday_and_hour(t);
    (weekday as usize) * 24 + (hour as usize)
}

/// Moving an instant by `k` whole seconds moves its calendar second by `k`.
proof fn lemma_split_instant(t: int, k: int)
    ensures
        calendar_second(t + k * NANOS_PER_SECOND) == calendar_second(t) + k,
{
    vstd::arithmetic::div_mod::lemma_hoist_over_denominator(t, k, NANOS_PER_SECOND as nat);
}

/// The same hour a week later falls into the same bucket.
pub proof fn lemma_bucket_repeats_weekly(t: int)
    ensures
        hour_of_week(t + 168 * NANOS_PER_HOUR) == hour_of_week(t),
{
    let s = calendar_second(t);
    assert(168 * NANOS_PER_HOUR == 604_800 * NANOS_PER_SECOND);
    lemma_split_instant(t, 604_800);
    let d = SECONDS_PER_DAY as int;
    let q = s / d;
    let r = s % d;
    vstd::arithmetic::div_mod::lemma_fundamental_div_mod(s, d);
    assert(s + 604_800 == (q + 7) * d + r) by (nonlinear_arith)
        requires
            s == d * q + r,
            d == 86_400,
    ;
    vstd::arithmetic::div_mod::lemma_fundamental_div_mod_converse(s + 604_800, d, q + 7, r);
    vstd::arithmetic::div_mod::lemma_mod_multiples_vanish(1, q + 3, 7);
    assert((q + 7 + 3) % 7 == (q + 3) % 7) by {
        assert(7 * 1 + (q + 3) == q + 7 + 3);
    }
}

/// One hour later is the next bucket on the ring (Sunday 23:00 is followed
/// by Monday 00:00).
pub proof fn lemma_next_hour_is_next_bucket(t: int)
    ensures
        hour_of_week(t + NANOS_PER_HOUR) == (hour_of_week(t) + 1) % 168,
{
    let s = calendar_second(t);
    assert(NANOS_PER_HOUR == 3600 * NANOS_PER_SECOND);
    lemma_split_instant(t, 3600);
    let d = SECONDS_PER_DAY as int;
    let q = s / d;
    let r = s % d;
    vstd::arithmetic::div_mod::lemma_fundamental_div_mod(s, d);
    let w = (q + 3) % 7;
    let h = r / 3600;
    vstd::arithmetic::div_mod::lemma_fundamental_div_mod(r, 3600);
    if r + 3600 < d {
        vstd::arithmetic::div_mod::lemma_fundamental_div_mod_converse(s + 3600, d, q, r + 3600);
        vstd::arithmetic::div_mod::lemma_fundamental_div_mod_converse(
            r + 3600,
            3600,
            h + 1,
            r % 3600,
        );
        assert(h <= 22);
        assert(0 <= w * 24 + h + 1 < 168);
        vstd::arithmetic::div_mod::lemma_small_mod((w * 24 + h + 1) as nat, 168);
    } else {
        vstd::arithmetic::div_mod::lemma_fundamental_div_mod_converse(
            s + 3600,
            d,
            q + 1,
            r + 3600 - d,
        );
        assert(h == 23);
        assert((r + 3600 - d) / 3600 == 0);
        vstd::arithmetic::div_mod::lemma_add_mod_noop(q + 3, 1, 7);
        vstd::arithmetic::div_mod::lemma_small_mod(1, 7);
        if w == 6 {
            assert((q + 1 + 3) % 7 == 0);
            assert((w * 24 + h + 1) % 168 == 0) by {
                vstd::arithmetic::div_mod::lemma_mod_self_0(168);
            }
        } else {
            assert((q + 1 + 3) % 7 == w + 1) by {
                vstd::arithmetic::div_mod::lemma_small_mod((w + 1) as nat, 7);
            }
            vstd::arithmetic::div_mod::lemma_small_mod((w * 24 + h + 1) as nat, 168);
        }
    }
}

/// The two buckets next to `centre` on the 168-bucket ring: the hour before
/// and the hour after, wrapping from Monday 00:00 to Sunday 23:00 and back.
pub fn adjacent_buckets(centre: usize) -> (r: (usize, usize))
    requires
        centre < BUCKET_COUNT,
    ensures
        r.0 == (centre + 167) % 168,
        r.1 == (centre + 1) % 168,
        r.0 < BUCKET_COUNT,
        r.1 < BUCKET_COUNT,
        r.0 != centre,
        r.1 != centre,
{
    ((centre + BUCKET_COUNT - 1) % BUCKET_COUNT, (centre + 1) % BUCKET_COUNT)
}

/// Days of decay due on day `today` when decay was last applied on `last`:
/// one day the first time, the days elapsed since `last` when `today` is
/// later, and none when `today` is not later.
pub open spec fn decay_days(last: Option<i64>, today: int) -> Option<int> {
    match last {
        None => Some(1),
        Some(l) => if today - l <= 0 {
            None
        } else {
            Some(today - l)
        },
    }
}

/// Remembers the day (a day number, such as days from the common era) on
/// which decay was last applied.
#[derive(Debug, Clone, PartialEq, Eq, Structural)]
pub struct DecayClock {
    pub last_decay_applied: Option<i64>,
}

impl DecayClock {
    /// A clock on which decay has never been applied.
    pub fn new() -> (c: DecayClock)
        ensures
            c.last_decay_applied is None,
    {
        DecayClock { last_decay_applied: None }
    }

    /// Decides how many days of decay are due on `today`, and records
    /// `today` when some are.
    pub fn advance(&mut self, today: i64) -> (days: Option<i64>)
        requires
            old(self).last_decay_applied matches Some(l) ==> -0x8000_0000 <= l <= 0x7fff_ffff,
            -0x8000_0000 <= today <= 0x7fff_ffff,
        ensures
            days matches Some(d) ==> decay_days(old(self).last_decay_applied, today as int)
                == Some(d as int),
            days is None ==> decay_days(old(self).last_decay_applied, today as int) is None,
            days is Some ==> final(self).last_decay_applied == Some(today),
            days is None ==> *final(self) == *old(self),
    {
        match self.last_decay_applied {
            None => {
                self.last_decay_applied = Some(today);
                Some(1)
            },
            Some(last) => {
                let delta = today - last;
                if delta <= 0 {
                    None
                } else {
                    self.last_decay_applied = Some(today);
                    Some(delta)
                }
            },
        }
    }
}

/// Decaying twice on the same day decays once: right after decay is applied
/// on `today`, no further day of decay is due on `today`.
pub proof fn lemma_decay_once_per_day(last: Option<i64>, today: i64)
    requires
        decay_days(last, today as int) is Some,
    ensures
        decay_days(Some(today), today as int) is None,
{
}

/// The first hour that a forward scan from `after` inspects: the start of
/// the hour after the one that holds `after`.
pub open spec fn window_start(after: int) -> int {
    after - after % (NANOS_PER_HOUR as int) + NANOS_PER_HOUR
}

/// Whether candidate hour `h` of a scan that starts at `start` is marked in
/// `hits` (one flag per bucket).
pub open spec fn scan_hit(start: int, h: int, hits: Seq<bool>) -> bool {
    hits[hour_of_week(start + h * NANOS_PER_HOUR)]
}

/// The result of scanning candidate hours `h`, `h + 1`, ... `167` from
/// `start`: the first marked one, or none.
pub open spec fn scan_from(start: int, h: int, hits: Seq<bool>) -> Option<int>
    decreases 168 - h,
{
    if h >= 168 {
        None
    } else if scan_hit(start, h, hits) {
        Some(start + h * NANOS_PER_HOUR)
    } else {
        scan_from(start, h + 1, hits)
    }
}

/// The last candidate hour a scan from `h` inspects: the first marked one,
/// or 167.
pub open spec fn scan_last(start: int, h: int, hits: Seq<bool>) -> int
    decreases 168 - h,
{
    if h >= 167 {
        167
    } else if scan_hit(start, h, hits) {
        h
    } else {
        scan_last(start, h + 1, hits)
    }
}

/// The first hour after `after`, within one week, whose bucket is marked in
/// `hits`.
pub open spec fn next_window_spec(after: int, hits: Seq<bool>) -> Option<int> {
    scan_from(window_start(after), 0, hits)
}

/// An instant between two instants of the calendar is one too.
pub proof fn lemma_instant_monotone(a: int, b: int, c: int)
    requires
        is_instant(a),
        is_instant(c),
        a <= b <= c,
    ensures
        is_instant(b),
{
    vstd::arithmetic::div_mod::lemma_div_is_ordered(a, b, NANOS_PER_SECOND as int);
    vstd::arithmetic::div_mod::lemma_div_is_ordered(b, c, NANOS_PER_SECOND as int);
}

/// The last candidate of a scan from `h` is at least `h`, and a scan from
/// `h` that does not stop at `h` ends where the scan from `h + 1` ends.
proof fn lemma_scan_last_step(start: int, h: int, hits: Seq<bool>)
    requires
        0 <= h < 168,
    ensures
        h <= scan_last(start, h, hits) || h == 167,
        scan_last(start, h, hits) <= 167,
        h < 167 && !scan_hit(start, h, hits) ==> scan_last(start, h, hits) == scan_last(
            start,
            h + 1,
            hits,
        ),
    decreases 168 - h,
{
    if h < 167 && !scan_hit(start, h, hits) {
        lemma_scan_last_step(start, h + 1, hits);
    }
}

/// A scan that would have to inspect an hour beyond the covered calendar.
#[derive(Debug, Clone, Copy, PartialEq, Eq, Structural)]
pub struct OutsideCalendar;

/// Whether every candidate hour that a scan for the next window after
/// `after` inspects lies inside the calendar: the last one it inspects does.
pub open spec fn scan_in_calendar(after: int, hits: Seq<bool>) -> bool {
    is_instant(window_start(after) + scan_last(window_start(after), 0, hits) * NANOS_PER_HOUR)
}

/// Scans forward from the hour after `after`, hour by hour for one week,
/// and returns the first hour whose bucket is marked in `hits`; or
/// [`OutsideCalendar`] when an hour it has to inspect before that lies
/// beyond the calendar.
pub fn next_window(after: i128, hits: &Vec<bool>) -> (w: Result<Option<i128>, OutsideCalendar>)
    requires
        hits@.len() == BUCKET_COUNT,
        is_instant(after as int),
    ensures
        w is Err <==> !scan_in_calendar(after as int, hits@),
        w matches Ok(Some(v)) ==> next_window_spec(after as int, hits@) == Some(v as int),
        w matches Ok(None) ==> next_window_spec(after as int, hits@) is None,
{
    proof {
        lemma_instant_bounds(after as int);
    }
    let within = after - floor_div(after, NANOS_PER_HOUR) * NANOS_PER_HOUR;
    proof {
        vstd::arithmetic::div_mod::lemma_fundamental_div_mod(after as int, NANOS_PER_HOUR as int);
        assert(within as int == (after as int) % (NANOS_PER_HOUR as int));
    }
    let start = after - within + NANOS_PER_HOUR;
    let ghost s = start as int;
    proof {
        assert(s == window_start(after as int));
        lemma_scan_last_step(s, 0, hits@);
    }
    let mut h: u32 = 0;
    while h < 168
        invariant
            0 <= h <= 168,
            hits@.len() == BUCKET_COUNT,
            is_instant(after as int),
            after < s <= after + NANOS_PER_HOUR,
            start as int == s,
            s == window_start(after as int),
            h <= scan_last(s, 0, hits@) || h == 168,
            h == 168 ==> scan_last(s, 0, hits@) == 167,
            h > 0 ==> is_instant(s + (h - 1) * NANOS_PER_HOUR),
            scan_from(s, 0, hits@) == scan_from(s, h as int, hits@),
            h < 168 ==> scan_last(s, 0, hits@) == scan_last(s, h as int, hits@),
        decreases 168 - h,
    {
        proof {
            lemma_scan_last_step(s, h as int, hits@);
        }
        let candidate = start + (h as i128) * NANOS_PER_HOUR;
        if !crate::time::is_calendar_instant(candidate) {
            proof {
                let last = s + scan_last(s, 0, hits@) * NANOS_PER_HOUR;
                if is_instant(last) {
                    lemma_instant_monotone(after as int, candidate as int, last);
                }
            }
            return Err(OutsideCalendar);
        }
        let b = bucket_index(candidate);
        if hits[b] {
            proof {
                assert(candidate as int == s + h * NANOS_PER_HOUR);
                assert(scan_hit(s, h as int, hits@));
                assert(scan_from(s, h as int, hits@) == Some(candidate as int));
            }
            return Ok(Some(candidate));
        }
        proof {
            if h < 167 {
                lemma_scan_last_step(s, h as int + 1, hits@);
            }
        }
        h = h + 1;
    }
    Ok(None)
}

/// What a scan for the next window returns: an hour on an hour boundary,
/// strictly after `after`, at most 168 hours after it, whose bucket is
/// marked; and no earlier candidate hour is marked. When it returns none,
/// no candidate hour of the week is marked.
pub proof fn lemma_next_window_is_first(after: int, hits: Seq<bool>)
    ensures
        next_window_spec(after, hits) matches Some(w) ==> {
            &&& w % (NANOS_PER_HOUR as int) == 0
            &&& after < w <= after + 168 * NANOS_PER_HOUR
            &&& hits[hour_of_week(w)]
            &&& forall|k: int|
                0 <= k && window_start(after) + k * NANOS_PER_HOUR < w ==> !scan_hit(
                    window_start(after),
                    k,
                    hits,
                )
        },
        next_window_spec(after, hits) is None ==> forall|k: int|
            0 <= k < 168 ==> !scan_hit(window_start(after), k, hits),
{
    let s = window_start(after);
    let p = NANOS_PER_HOUR as int;
    vstd::arithmetic::div_mod::lemma_fundamental_div_mod(after, p);
    assert(s % p == 0) by {
        vstd::arithmetic::div_mod::lemma_fundamental_div_mod(after, p);
        assert(s == p * (after / p) + p);
        vstd::arithmetic::div_mod::lemma_mod_multiples_basic(after / p + 1, p);
        assert(p * (after / p) + p == (after / p + 1) * p) by (nonlinear_arith);
    }
    lemma_scan_from_facts(s, 0, hits);
}

/// Facts of a scan from candidate `h`.
proof fn lemma_scan_from_facts(s: int, h: int, hits: Seq<bool>)
    requires
        0 <= h,
        s % (NANOS_PER_HOUR as int) == 0,
    ensures
        scan_from(s, h, hits) matches Some(w) ==> {
            &&& w % (NANOS_PER_HOUR as int) == 0
            &&& exists|j: int| h <= j < 168 && w == s + j * NANOS_PER_HOUR && scan_hit(s, j, hits)
            &&& forall|k: int|
                h <= k && s + k * NANOS_PER_HOUR < w ==> !scan_hit(s, k, hits)
        },
        scan_from(s, h, hits) is None ==> forall|k: int| h <= k < 168 ==> !scan_hit(s, k, hits),
    decreases 168 - h,
{
    let p = NANOS_PER_HOUR as int;
    if h >= 168 {
    } else if scan_hit(s, h, hits) {
        let w = s + h * p;
        assert(w % p == 0) by {
            vstd::arithmetic::div_mod::lemma_fundamental_div_mod(s, p);
            assert(w == (s / p + h) * p) by (nonlinear_arith)
                requires w == s + h * p, s == p * (s / p) + s % p, s % p == 0;
            vstd::arithmetic::div_mod::lemma_mod_multiples_basic(s / p + h, p);
        }
        assert forall|k: int| h <= k && s + k * p < w implies !scan_hit(s, k, hits) by {
            assert(k < h) by (nonlinear_arith)
                requires s + k * p < s + h * p, p > 0;
        }
    } else {
        lemma_scan_from_facts(s, h + 1, hits);
        if let Some(w) = scan_from(s, h, hits) {
            assert forall|k: int| h <= k && s + k * p < w implies !scan_hit(s, k, hits) by {
                if k > h {
                }
            }
        }
    }
}

} // verus!
