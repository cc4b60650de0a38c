use smart_geyser::system::{PumpVoltage, SystemKind};

#[test]
fn is_solar_pumped_predicate() {
    assert!(!SystemKind::ElectricOnly.is_solar_pumped());
    assert!(SystemKind::SolarPumped {
        pump_voltage: PumpVoltage::Dc12V,
    }
    .is_solar_pumped());
    assert!(!SystemKind::HeatPump.is_solar_pumped());
}

#[test]
fn is_heat_pump_predicate() {
    assert!(SystemKind::HeatPump.is_heat_pump());
    assert!(!SystemKind::ElectricOnly.is_heat_pump());
}

#[test]
fn is_electric_only_predicate() {
    assert!(SystemKind::ElectricOnly.is_electric_only());
    assert!(!SystemKind::SolarPumped {
        pump_voltage: PumpVoltage::Ac220V,
    }
    .is_electric_only());
}

#[test]
fn status_names_per_kind() {
    assert_eq!(SystemKind::ElectricOnly.status_name(), "electric_only");
    assert_eq!(
        SystemKind::SolarPumped {
            pump_voltage: PumpVoltage::Dc12V
        }
        .status_name(),
        "solar_pumped"
    );
    assert_eq!(SystemKind::HeatPump.status_name(), "heat_pump");
}
