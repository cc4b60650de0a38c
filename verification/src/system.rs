//! The heating-system taxonomy.

use vstd::prelude::*;

verus! {

/// Voltage class for the solar-thermal circulation pump of a pumped solar
/// system.
#[derive(Debug, Clone, Copy, PartialEq, Eq, Hash, Structural)]
pub enum PumpVoltage {
    /// Low-voltage DC pump.
    Dc12V,
    /// Mains-AC pump.
    Ac220V,
}

/// The shape of the heating hardware, as far as the decisions read it.
///
/// A heat pump's coefficient of performance is not part of this type: it is
/// only used by the lead-time arithmetic, which works on floating point.
#[derive(Debug, Clone, Copy, PartialEq, Eq, Structural)]
pub enum SystemKind {
    /// Resistive electric element only.
    ElectricOnly,
    /// Resistive element plus a pumped solar-thermal collector.
    SolarPumped { pump_voltage: PumpVoltage },
    /// Heat pump as the primary heater.
    HeatPump,
}

impl SystemKind {
    /// Whether this system has a pumped solar-thermal collector loop.
    pub fn is_solar_pumped(&self) -> (b: bool)
        ensures
            b <==> *self is SolarPumped,
    {
        matches!(self, SystemKind::SolarPumped { .. })
    }

    /// Whether this system uses a heat pump as the primary heater.
    pub fn is_heat_pump(&self) -> (b: bool)
        ensures
            b <==> *self is HeatPump,
    {
        matches!(self, SystemKind::HeatPump)
    }

    /// Whether this system has only a resistive electric element.
    pub fn is_electric_only(&self) -> (b: bool)
        ensures
            b <==> *self is ElectricOnly,
    {
        matches!(self, SystemKind::ElectricOnly)
    }

    /// The name the status API reports for this kind of system.
    pub fn status_name(&self) -> (s: &'static str)
        ensures
            *self is ElectricOnly ==> s@ == "electric_only"@,
            *self is SolarPumped ==> s@ == "solar_pumped"@,
            *self is HeatPump ==> s@ == "heat_pump"@,
    {
        match self {
            SystemKind::ElectricOnly => "electric_only",
            SystemKind::SolarPumped { .. } => "solar_pumped",
            SystemKind::HeatPump => "heat_pump",
        }
    }
}

} // verus!
