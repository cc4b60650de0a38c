use chrono::{TimeZone, Utc};
use smart_geyser::api::{BoostError, BoostRequest};

fn now() -> i128 {
    i128::from(Utc.with_ymd_and_hms(2026, 4, 28, 10, 0, 0).unwrap().timestamp()) * 1_000_000_000
}

#[test]
fn boost_of_an_hour_ends_an_hour_later() {
    let r = BoostRequest { duration_minutes: 60 }.boost_until(now());
    assert_eq!(r, Ok(now() + 3_600_000_000_000));
}

#[test]
fn boost_duration_bounds_are_inclusive() {
    assert_eq!(
        BoostRequest { duration_minutes: 1 }.boost_until(now()),
        Ok(now() + 60_000_000_000)
    );
    assert_eq!(
        BoostRequest { duration_minutes: 480 }.boost_until(now()),
        Ok(now() + 480 * 60_000_000_000)
    );
}

#[test]
fn boost_out_of_range_is_refused() {
    assert_eq!(
        BoostRequest { duration_minutes: 0 }.boost_until(now()),
        Err(BoostError::DurationOutOfRange)
    );
    assert_eq!(
        BoostRequest { duration_minutes: 481 }.boost_until(now()),
        Err(BoostError::DurationOutOfRange)
    );
}
