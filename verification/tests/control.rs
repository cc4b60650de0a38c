use smart_geyser::control::{ControlCommands, DailyGate, ElementControl};
use smart_geyser::decision::{DecisionIntent, HeatTarget, OpportunityReason};

const NONE: ControlCommands =
    ControlCommands { set_boost: None, set_element: None, skipped_boost: None, skipped_element: None };

#[test]
fn without_native_boost_the_element_follows_the_intent_on_change() {
    let mut c = ElementControl::new();
    let preheat = DecisionIntent::Preheat { target: HeatTarget::Setpoint };
    assert_eq!(c.step(&preheat, false, false), ControlCommands { set_element: Some(true), ..NONE });
    assert_eq!(c.step(&preheat, false, false), NONE);
    assert_eq!(
        c.step(&DecisionIntent::SmartStop, false, false),
        ControlCommands { set_element: Some(false), ..NONE }
    );
    assert_eq!(c.step(&DecisionIntent::Idle, false, false), NONE);
    assert_eq!(
        c.step(&DecisionIntent::Boost { until: 0 }, false, false),
        ControlCommands { set_element: Some(true), ..NONE }
    );
}

#[test]
fn native_boost_switches_boost_then_element() {
    let mut c = ElementControl::new();
    let boost = DecisionIntent::Boost { until: 0 };
    assert_eq!(c.step(&boost, true, false), ControlCommands { set_boost: Some(true), ..NONE });
    assert_eq!(c.step(&boost, true, false), NONE);
    // Leaving boost turns it off and re-sends the element state.
    assert_eq!(
        c.step(&DecisionIntent::Idle, true, false),
        ControlCommands { set_boost: Some(false), set_element: Some(false), ..NONE }
    );
    assert_eq!(c.step(&DecisionIntent::Idle, true, false), NONE);
    let opportunity = DecisionIntent::Opportunity { reason: OpportunityReason::BatteryFullSocOnly };
    assert_eq!(c.step(&opportunity, true, false), ControlCommands { set_element: Some(true), ..NONE });
}

#[test]
fn read_only_sends_nothing_but_reports_what_it_skipped() {
    let mut c = ElementControl::new();
    let preheat = DecisionIntent::Preheat { target: HeatTarget::Legionella };
    assert_eq!(c.step(&preheat, false, true), ControlCommands { skipped_element: Some(true), ..NONE });
    assert_eq!(c.step(&preheat, false, true), NONE);
    let mut n = ElementControl::new();
    assert_eq!(
        n.step(&DecisionIntent::Idle, true, true),
        ControlCommands { skipped_boost: Some(false), skipped_element: Some(false), ..NONE }
    );
}

#[test]
fn daily_gate_opens_once_per_day() {
    let mut g = DailyGate::new();
    assert!(g.open_for(10));
    assert!(!g.open_for(10));
    assert!(g.open_for(11));
    assert!(g.open_for(10));
}
