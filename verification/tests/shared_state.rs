use chrono::{DateTime, TimeZone, Utc};
use smart_geyser::shared_state::{is_boosting, SharedEngineState};

fn instant(dt: DateTime<Utc>) -> i128 {
    i128::from(dt.timestamp()) * 1_000_000_000 + i128::from(dt.timestamp_subsec_nanos())
}

fn minutes(m: i128) -> i128 {
    m * 60_000_000_000
}

#[test]
fn default_state_is_all_inactive() {
    let state = SharedEngineState::default();
    assert_eq!(state.smart_stop_active, false);
    assert_eq!(state.opportunity_active, false);
    assert_eq!(state.last_opportunity_start, None);
    assert_eq!(state.preheat_active, false);
    assert_eq!(state.boost_until, None);
    assert_eq!(state.last_high_temp_event, None);
}

#[test]
fn set_preheat_roundtrip() {
    let mut shared = SharedEngineState::new();

    shared.set_preheat(true);
    assert_eq!(shared.preheat_active, true);

    shared.set_preheat(false);
    assert_eq!(shared.preheat_active, false);
}

#[test]
fn set_smart_stop_roundtrip() {
    let mut shared = SharedEngineState::new();

    shared.set_smart_stop(true);
    assert_eq!(shared.smart_stop_active, true);

    shared.set_smart_stop(false);
    assert_eq!(shared.smart_stop_active, false);
}

#[test]
fn set_opportunity_records_timestamp() {
    let mut shared = SharedEngineState::new();
    let now = instant(Utc.with_ymd_and_hms(2026, 4, 28, 10, 0, 0).unwrap());

    shared.set_opportunity(true, now);

    assert_eq!(shared.opportunity_active, true);
    assert_eq!(shared.last_opportunity_start, Some(now));
}

#[test]
fn set_boost_until_and_is_boosting() {
    let mut shared = SharedEngineState::new();
    let now = instant(Utc.with_ymd_and_hms(2026, 4, 28, 10, 0, 0).unwrap());
    let ten_min_later = now + minutes(10);
    let eleven_min_later = now + minutes(11);

    shared.set_boost_until(Some(ten_min_later));

    assert_eq!(is_boosting(&shared, now), true);
    assert_eq!(is_boosting(&shared, eleven_min_later), false);
}

#[test]
fn record_high_temp_event_stored() {
    let mut shared = SharedEngineState::new();
    let now = instant(Utc.with_ymd_and_hms(2026, 4, 28, 12, 30, 0).unwrap());

    shared.record_high_temp_event(now);

    assert_eq!(shared.last_high_temp_event, Some(now));
}

#[test]
fn boost_ends_exactly_at_its_end() {
    let mut shared = SharedEngineState::new();
    let now = instant(Utc.with_ymd_and_hms(2026, 4, 28, 10, 0, 0).unwrap());
    shared.set_boost_until(Some(now));
    assert!(!is_boosting(&shared, now));
    assert!(is_boosting(&shared, now - 1));
    shared.set_boost_until(None);
    assert!(!is_boosting(&shared, now - 1));
}

#[test]
fn read_only_mode_toggles() {
    let mut shared = SharedEngineState::new();
    shared.set_read_only(true);
    assert!(shared.read_only_mode);
    shared.set_read_only(false);
    assert!(!shared.read_only_mode);
}
