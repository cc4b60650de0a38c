use chrono::{DateTime, Duration, TimeZone, Utc};
use smart_geyser::decision::{DecisionEngine, DecisionIntent, HeatTarget, TickReading};
use smart_geyser::pattern::bucket_index;
use smart_geyser::shared_state::SharedEngineState;

fn instant(dt: DateTime<Utc>) -> i128 {
    i128::from(dt.timestamp()) * 1_000_000_000 + i128::from(dt.timestamp_subsec_nanos())
}

fn test_now() -> DateTime<Utc> {
    Utc.with_ymd_and_hms(2026, 4, 28, 7, 0, 0).unwrap()
}

fn table(fill: bool, flipped: &[usize]) -> Vec<bool> {
    let mut t = vec![fill; 168];
    for &b in flipped {
        t[b] = !fill;
    }
    t
}

/// The flags a tank at `tank_temp_c` gives against the default 60 °C setpoint,
/// 4 °C hysteresis and the 65 °C legionella temperature. The lead time of
/// 70 minutes is what 150 L from 40 °C to 60 °C takes at 3 kW.
fn reading(tank_temp_c: f32, heating_active: bool, preheat: Vec<bool>, quiet: Vec<bool>) -> TickReading {
    TickReading {
        heating_active,
        tank_at_or_above_legionella_temp: tank_temp_c >= 65.0,
        tank_below_legionella_temp: tank_temp_c < 65.0,
        tank_below_band: tank_temp_c < 60.0 - 4.0,
        tank_at_or_above_band: tank_temp_c >= 60.0 - 4.0,
        lead_minutes: 70,
        preheat_hours: preheat,
        quiet_hours: quiet,
    }
}

fn engine() -> DecisionEngine {
    DecisionEngine::new(7, 30, 20)
}

#[test]
fn cold_tank_high_probability_preheat() {
    let mut e = engine();
    let now = instant(test_now());
    let mut shared = SharedEngineState::new();
    shared.last_high_temp_event = Some(now);

    // A pattern that saturates the hour of the look-ahead (lead + margin).
    let use_bucket = bucket_index(instant(test_now() + Duration::minutes(90)));
    let preheat = table(false, &[use_bucket]);
    let quiet = table(true, &[use_bucket, use_bucket - 1, use_bucket + 1]);

    let intent = e.tick(&mut shared, now, &reading(40.0, false, preheat, quiet));

    assert_eq!(intent, DecisionIntent::Preheat { target: HeatTarget::Setpoint });
    assert_eq!(shared.preheat_active, true);
}

#[test]
fn hot_tank_low_probability_smart_stop() {
    let mut e = engine();
    let now = instant(test_now());
    let mut shared = SharedEngineState::new();
    shared.last_high_temp_event = Some(now);

    let intent = e.tick(&mut shared, now, &reading(60.0, false, table(false, &[]), table(true, &[])));

    assert_eq!(intent, DecisionIntent::SmartStop);
}

#[test]
fn cold_tank_low_probability_idle() {
    let mut e = engine();
    let now = instant(test_now());
    let mut shared = SharedEngineState::new();
    shared.last_high_temp_event = Some(now);

    let intent = e.tick(&mut shared, now, &reading(40.0, false, table(false, &[]), table(true, &[])));

    assert_eq!(intent, DecisionIntent::Idle);
}

#[test]
fn boost_active_returns_boost() {
    let mut e = engine();
    let now = instant(test_now());
    let boost_until = instant(test_now() + Duration::hours(1));
    let mut shared = SharedEngineState::new();
    shared.set_boost_until(Some(boost_until));

    let intent = e.tick(&mut shared, now, &reading(40.0, false, table(true, &[]), table(false, &[])));

    assert!(matches!(intent, DecisionIntent::Boost { .. }));
    assert_eq!(intent, DecisionIntent::Boost { until: boost_until });
    assert!(!shared.preheat_active && !shared.smart_stop_active);
}

#[test]
fn legionella_force_heat_after_8_days() {
    let mut e = engine();
    let now = instant(test_now());
    let mut shared = SharedEngineState::new();
    shared.last_high_temp_event = Some(instant(test_now() - Duration::days(8)));

    let intent = e.tick(&mut shared, now, &reading(40.0, false, table(false, &[]), table(true, &[])));

    assert_eq!(intent, DecisionIntent::Preheat { target: HeatTarget::Legionella });
}

#[test]
fn legionella_not_due_after_six_days() {
    let mut e = engine();
    let now = instant(test_now());
    let mut shared = SharedEngineState::new();
    shared.last_high_temp_event = Some(instant(test_now() - Duration::days(6)));

    let intent = e.tick(&mut shared, now, &reading(40.0, false, table(false, &[]), table(true, &[])));

    assert_eq!(intent, DecisionIntent::Idle);
}

#[test]
fn legionella_due_when_never_hot_but_not_when_hot_enough() {
    let now = instant(test_now());

    let mut e = engine();
    let mut shared = SharedEngineState::new();
    let intent = e.tick(&mut shared, now, &reading(50.0, false, table(false, &[]), table(true, &[])));
    assert_eq!(intent, DecisionIntent::Preheat { target: HeatTarget::Legionella });
    assert!(shared.preheat_active);

    let mut e = engine();
    let mut shared = SharedEngineState::new();
    let intent = e.tick(&mut shared, now, &reading(66.0, false, table(false, &[]), table(true, &[])));
    assert_eq!(intent, DecisionIntent::SmartStop);
    assert!(shared.smart_stop_active && !shared.preheat_active);
}

#[test]
fn thirty_hot_minutes_record_a_high_temp_event() {
    let mut e = engine();
    let mut shared = SharedEngineState::new();
    let start = test_now();
    for i in 0..29 {
        let now = instant(start + Duration::minutes(i));
        let _ = e.tick(&mut shared, now, &reading(66.0, true, table(false, &[]), table(false, &[])));
        assert_eq!(shared.last_high_temp_event, None, "no event before the thirtieth minute");
    }
    let last = instant(start + Duration::minutes(29));
    let _ = e.tick(&mut shared, last, &reading(66.0, true, table(false, &[]), table(false, &[])));
    assert_eq!(shared.last_high_temp_event, Some(last));
}

#[test]
fn a_cool_minute_restarts_the_hot_count() {
    let mut e = engine();
    let mut shared = SharedEngineState::new();
    let start = test_now();
    for i in 0..29 {
        let now = instant(start + Duration::minutes(i));
        let _ = e.tick(&mut shared, now, &reading(66.0, true, table(false, &[]), table(false, &[])));
    }
    let cool = instant(start + Duration::minutes(29));
    let _ = e.tick(&mut shared, cool, &reading(66.0, false, table(false, &[]), table(false, &[])));
    let hot = instant(start + Duration::minutes(30));
    let _ = e.tick(&mut shared, hot, &reading(66.0, true, table(false, &[]), table(false, &[])));
    assert_eq!(shared.last_high_temp_event, None);
}

#[test]
fn offline_element_schedules_no_preheat() {
    let mut e = engine();
    let now = instant(test_now());
    let mut shared = SharedEngineState::new();
    shared.last_high_temp_event = Some(now);

    // Every hour is a likely use, the tank is cold, and the element is
    // offline: its lead time is u32::MAX and the margin is 20 minutes.
    let mut r = reading(40.0, false, table(true, &[]), table(false, &[]));
    r.lead_minutes = u32::MAX;
    assert_eq!(e.use_lead_minutes(&r), None);

    let intent = e.tick(&mut shared, now, &r);

    assert_eq!(intent, DecisionIntent::Idle);
    assert!(!shared.preheat_active);
    assert!(!shared.smart_stop_active);
}

#[test]
fn use_lead_adds_the_safety_margin() {
    let e = engine();
    let r = reading(40.0, false, table(false, &[]), table(false, &[]));
    assert_eq!(e.use_lead_minutes(&r), Some(90));
}

#[test]
fn lead_that_just_fits_with_the_margin_is_not_offline() {
    let e = engine();
    let mut r = reading(40.0, false, table(false, &[]), table(false, &[]));
    r.lead_minutes = u32::MAX - 20;
    assert_eq!(e.use_lead_minutes(&r), Some(u32::MAX));
    r.lead_minutes = u32::MAX - 19;
    assert_eq!(e.use_lead_minutes(&r), None);
}
