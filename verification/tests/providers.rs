use smart_geyser::capability::{GeyserCapabilities, GeyserCapability};
use smart_geyser::geyserwala;
use smart_geyser::mqtt::{
    command_topic, on_off_payload, parse_on_off, stat_prefix, stat_wildcard, StatField,
};
use smart_geyser::system::{PumpVoltage, SystemKind};

#[test]
fn capabilities_include_tank_collector_element_boost_setpoint() {
    let caps = geyserwala::capabilities();
    assert!(caps.contains(GeyserCapability::TankTemp));
    assert!(caps.contains(GeyserCapability::CollectorTemp));
    assert!(caps.contains(GeyserCapability::ElementControl));
    assert!(caps.contains(GeyserCapability::BoostControl));
    assert!(caps.contains(GeyserCapability::SetpointControl));
    assert!(!caps.contains(GeyserCapability::PumpControl));
}

#[test]
fn name_is_geyserwala_connect() {
    assert_eq!(geyserwala::rest_provider_name(), "Geyserwala Connect");
    assert_eq!(geyserwala::mqtt_provider_name(), "Geyserwala Connect (MQTT)");
}

#[test]
fn system_is_solar_pumped() {
    assert!(geyserwala::system(PumpVoltage::Ac220V).is_solar_pumped());
    assert_eq!(geyserwala::system(PumpVoltage::Ac220V), SystemKind::SolarPumped { pump_voltage: PumpVoltage::Ac220V });
    assert_eq!(geyserwala::system(PumpVoltage::Dc12V), SystemKind::SolarPumped { pump_voltage: PumpVoltage::Dc12V });
}

#[test]
fn electric_only_provider_has_no_pump_capability() {
    let caps = GeyserCapabilities::from_slice(&[GeyserCapability::TankTemp, GeyserCapability::ElementControl]);
    assert!(!caps.contains(GeyserCapability::PumpControl));
    assert!(caps.contains(GeyserCapability::TankTemp));
    assert!(caps.contains(GeyserCapability::ElementControl));
}

#[test]
fn rest_addresses() {
    assert_eq!(
        geyserwala::state_url("http://geyserwala.local"),
        "http://geyserwala.local/api/value?f=tank-temp,collector-temp,element-demand,pump-status"
    );
    assert_eq!(geyserwala::setpoint_url("http://x"), "http://x/api/value?f=setpoint");
    assert_eq!(geyserwala::value_url("http://x"), "http://x/api/value");
    assert_eq!(geyserwala::bearer_value("secret"), "Bearer secret");
}

#[test]
fn mqtt_topics() {
    assert_eq!(stat_wildcard("geyserwala", "AABBCCDDEEFF"), "geyserwala/stat/AABBCCDDEEFF/#");
    assert_eq!(stat_prefix("geyserwala", "AABBCCDDEEFF"), "geyserwala/stat/AABBCCDDEEFF/");
    assert_eq!(
        command_topic("geyserwala", "AABBCCDDEEFF", "external-demand"),
        "geyserwala/cmnd/AABBCCDDEEFF/external-demand"
    );
}

#[test]
fn mqtt_boolean_payloads_round_trip() {
    assert_eq!(on_off_payload(true), "ON");
    assert_eq!(on_off_payload(false), "OFF");
    assert!(parse_on_off(on_off_payload(true)));
    assert!(!parse_on_off(on_off_payload(false)));
    assert!(parse_on_off("on"));
    assert!(parse_on_off("On"));
    assert!(!parse_on_off("onn"));
    assert!(!parse_on_off("1"));
}

#[test]
fn mqtt_stat_fields() {
    let p = "geyserwala/stat/AA/";
    assert_eq!(StatField::of_topic("geyserwala/stat/AA/tank-temp", p), StatField::TankTemp);
    assert_eq!(StatField::of_topic("geyserwala/stat/AA/collector-temp", p), StatField::CollectorTemp);
    assert_eq!(StatField::of_topic("geyserwala/stat/AA/element-demand", p), StatField::ElementDemand);
    assert_eq!(StatField::of_topic("geyserwala/stat/AA/pump-status", p), StatField::PumpStatus);
    assert_eq!(StatField::of_topic("geyserwala/stat/AA/setpoint", p), StatField::Setpoint);
    assert_eq!(StatField::of_topic("geyserwala/stat/AA/mode", p), StatField::Other);
    assert_eq!(StatField::of_topic("other/stat/AA/tank-temp", p), StatField::Other);
}

#[test]
fn bearer_token_makes_the_authorization_header() {
    let value = geyserwala::authorization_header("secret").unwrap();
    assert_eq!(value.to_str().unwrap(), "Bearer secret");
}

#[test]
fn token_with_a_line_break_is_refused() {
    assert_eq!(
        geyserwala::authorization_header("sec\nret").err(),
        Some(geyserwala::TokenError::InvalidHeaderCharacters)
    );
}

#[test]
fn token_with_non_ascii_text_is_accepted() {
    let value = geyserwala::authorization_header("sécret").unwrap();
    assert_eq!(value.as_bytes(), "Bearer sécret".as_bytes());
}
