use chrono::{DateTime, Datelike, TimeZone, Timelike, Utc};
use smart_geyser::pattern::{adjacent_buckets, bucket_index, next_window, DecayClock, OutsideCalendar};
use smart_geyser::time::MAX_CALENDAR_SECOND;

fn instant(dt: DateTime<Utc>) -> i128 {
    i128::from(dt.timestamp()) * 1_000_000_000 + i128::from(dt.timestamp_subsec_nanos())
}

fn from_instant(t: i128) -> DateTime<Utc> {
    let secs = t.div_euclid(1_000_000_000) as i64;
    let nanos = t.rem_euclid(1_000_000_000) as u32;
    DateTime::from_timestamp(secs, nanos).unwrap()
}

#[test]
fn monday_7am_is_bucket_7_and_wednesday_14h_is_bucket_62() {
    // 2026-01-05 is a Monday.
    assert_eq!(bucket_index(instant(Utc.with_ymd_and_hms(2026, 1, 5, 7, 0, 0).unwrap())), 7);
    assert_eq!(bucket_index(instant(Utc.with_ymd_and_hms(2026, 1, 7, 14, 0, 0).unwrap())), 62);
    assert_eq!(bucket_index(instant(Utc.with_ymd_and_hms(2026, 1, 11, 23, 59, 59).unwrap())), 167);
}

#[test]
fn bucket_index_matches_chrono_before_the_epoch() {
    let dt = Utc.with_ymd_and_hms(1969, 12, 31, 23, 30, 0).unwrap() + chrono::Duration::nanoseconds(1);
    let expected = dt.weekday().num_days_from_monday() as usize * 24 + dt.hour() as usize;
    assert_eq!(bucket_index(instant(dt)), expected);
    assert_eq!(expected, 2 * 24 + 23);
}

#[test]
fn adjacent_buckets_wrap_around_the_week() {
    assert_eq!(adjacent_buckets(7), (6, 8));
    assert_eq!(adjacent_buckets(0), (167, 1));
    assert_eq!(adjacent_buckets(167), (166, 0));
}

#[test]
fn decay_clock_decays_once_per_day() {
    let mut c = DecayClock::new();
    assert_eq!(c.advance(100), Some(1));
    assert_eq!(c.advance(100), None);
    assert_eq!(c.advance(99), None);
    assert_eq!(c.advance(103), Some(3));
    assert_eq!(c.last_decay_applied, Some(103));
}

#[test]
fn next_window_finds_the_first_marked_hour_after() {
    // Mark Monday 07:00 and 08:00 (buckets 7 and 8).
    let mut hits = vec![false; 168];
    hits[7] = true;
    hits[8] = true;
    let after = Utc.with_ymd_and_hms(2026, 1, 5, 6, 0, 0).unwrap();
    let w = next_window(instant(after), &hits).unwrap().expect("a window");
    let w = from_instant(w);
    assert_eq!(w, Utc.with_ymd_and_hms(2026, 1, 5, 7, 0, 0).unwrap());
    assert_eq!(w.weekday().num_days_from_monday(), 0);
}

#[test]
fn next_window_starts_after_the_current_hour() {
    let mut hits = vec![false; 168];
    hits[7] = true;
    // 07:20 on Monday: the current hour is not a candidate, so the next
    // Monday 07:00 is found a week later.
    let after = Utc.with_ymd_and_hms(2026, 1, 5, 7, 20, 0).unwrap();
    let w = from_instant(next_window(instant(after), &hits).unwrap().unwrap());
    assert_eq!(w, Utc.with_ymd_and_hms(2026, 1, 12, 7, 0, 0).unwrap());
}

#[test]
fn next_window_none_without_marks() {
    let hits = vec![false; 168];
    let after = Utc.with_ymd_and_hms(2026, 1, 5, 6, 0, 0).unwrap();
    assert_eq!(next_window(instant(after), &hits), Ok(None));
}

#[test]
fn the_hour_after_sunday_23h_is_monday_0h() {
    let sunday_late = instant(Utc.with_ymd_and_hms(2026, 1, 11, 23, 30, 0).unwrap());
    assert_eq!(bucket_index(sunday_late), 167);
    assert_eq!(bucket_index(sunday_late + 3_600_000_000_000), 0);
}

#[test]
fn buckets_repeat_weekly() {
    let t = instant(Utc.with_ymd_and_hms(2026, 3, 4, 17, 45, 12).unwrap());
    let week: i128 = 168 * 3_600_000_000_000;
    assert_eq!(bucket_index(t + week), bucket_index(t));
    assert_eq!(bucket_index(t - 52 * week), bucket_index(t));
}

#[test]
fn next_window_beyond_the_calendar_is_refused() {
    let last_hour = i128::from(MAX_CALENDAR_SECOND) * 1_000_000_000 - 2 * 3_600_000_000_000;
    let hits = vec![false; 168];
    assert_eq!(next_window(last_hour, &hits), Err(OutsideCalendar));
    let all = vec![true; 168];
    assert!(matches!(next_window(last_hour, &all), Ok(Some(_))));
}
