//! Capabilities that geyser and PV providers advertise.

use vstd::prelude::*;

verus! {

/// A discrete capability that a geyser provider may expose.
#[derive(Debug, Clone, Copy, PartialEq, Eq, Hash, Structural)]
pub enum GeyserCapability {
    /// Provider can read the tank temperature.
    TankTemp,
    /// Provider can read the solar-collector temperature.
    CollectorTemp,
    /// Provider can command the circulation pump on/off.
    PumpControl,
    /// Provider can command the electric element on/off.
    ElementControl,
    /// Provider supports a manual boost mode distinct from element on/off.
    BoostControl,
    /// Provider can report hardware fault status.
    FaultStatus,
    /// Provider can read and write the device's heating setpoint.
    SetpointControl,
}

/// Optional PV-system signals that a PV provider may expose.
#[derive(Debug, Clone, Copy, PartialEq, Eq, Hash, Structural)]
pub enum PVCapability {
    /// Current PV generation is reported.
    PvPower,
    /// Grid power is reported (enables export detection).
    GridPower,
    /// Battery power is reported.
    BatteryPower,
    /// Household load is reported (enables coverage calculation).
    LoadPower,
    /// Usable battery capacity is reported.
    BatteryCapacity,
}

/// The set of capabilities of a geyser provider.
#[derive(Debug, Clone, Copy, PartialEq, Eq, Structural)]
pub struct GeyserCapabilities {
    tank_temp: bool,
    collector_temp: bool,
    pump_control: bool,
    element_control: bool,
    boost_control: bool,
    fault_status: bool,
    setpoint_control: bool,
}

impl GeyserCapabilities {
    /// Whether `cap` is in the set.
    pub closed spec fn has(&self, cap: GeyserCapability) -> bool {
        match cap {
            GeyserCapability::TankTemp => self.tank_temp,
            GeyserCapability::CollectorTemp => self.collector_temp,
            GeyserCapability::PumpControl => self.pump_control,
            GeyserCapability::ElementControl => self.element_control,
            GeyserCapability::BoostControl => self.boost_control,
            GeyserCapability::FaultStatus => self.fault_status,
            GeyserCapability::SetpointControl => self.setpoint_control,
        }
    }
}

impl View for GeyserCapabilities {
    type V = Set<GeyserCapability>;

    open spec fn view(&self) -> Set<GeyserCapability> {
        Set::new(|c: GeyserCapability| self.has(c))
    }
}

impl GeyserCapabilities {
    /// The empty set.
    pub fn new() -> (s: GeyserCapabilities)
        ensures
            s@ == Set::<GeyserCapability>::empty(),
    {
        let s = GeyserCapabilities {
            tank_temp: false,
            collector_temp: false,
            pump_control: false,
            element_control: false,
            boost_control: false,
            fault_status: false,
            setpoint_control: false,
        };
        assert(s@ =~= Set::<GeyserCapability>::empty());
        s
    }

    /// Adds `cap` to the set.
    pub fn insert(&mut self, cap: GeyserCapability)
        ensures
            final(self)@ == old(self)@.insert(cap),
    {
        match cap {
            GeyserCapability::TankTemp => self.tank_temp = true,
            GeyserCapability::CollectorTemp => self.collector_temp = true,
            GeyserCapability::PumpControl => self.pump_control = true,
            GeyserCapability::ElementControl => self.element_control = true,
            GeyserCapability::BoostControl => self.boost_control = true,
            GeyserCapability::FaultStatus => self.fault_status = true,
            GeyserCapability::SetpointControl => self.setpoint_control = true,
        }
        assert(final(self)@ =~= old(self)@.insert(cap));
    }

    /// The set of the capabilities in `caps`.
    pub fn from_slice(caps: &[GeyserCapability]) -> (s: GeyserCapabilities)
        ensures
            forall|c: GeyserCapability| s@.contains(c) <==> caps@.contains(c),
    {
        let mut s = GeyserCapabilities::new();
        let mut i: usize = 0;
        while i < caps.len()
            invariant
                0 <= i <= caps@.len(),
                forall|c: GeyserCapability| s@.contains(c) <==> caps@.take(i as int).contains(c),
            decreases caps@.len() - i,
        {
            let ghost before = s@;
            s.insert(caps[i]);
            proof {
                assert(caps@.take(i as int + 1) =~= caps@.take(i as int).push(caps@[i as int]));
                assert forall|c: GeyserCapability| s@.contains(c) <==> caps@.take(
                    i as int + 1,
                ).contains(c) by {
                    if c == caps@[i as int] {
                        assert(caps@.take(i as int + 1)[i as int] == c);
                    }
                    if caps@.take(i as int + 1).contains(c) && c != caps@[i as int] {
                        let j = choose|j: int|
                            0 <= j < i + 1 && #[trigger] caps@.take(i as int + 1)[j] == c;
                        assert(caps@.take(i as int)[j] == c);
                    }
                }
            }
            i = i + 1;
        }
        assert(caps@.take(caps@.len() as int) =~= caps@);
        s
    }

    /// Whether `cap` is in the set.
    pub fn contains(&self, cap: GeyserCapability) -> (b: bool)
        ensures
            b == self@.contains(cap),
    {
        match cap {
            GeyserCapability::TankTemp => self.tank_temp,
            GeyserCapability::CollectorTemp => self.collector_temp,
            GeyserCapability::PumpControl => self.pump_control,
            GeyserCapability::ElementControl => self.element_control,
            GeyserCapability::BoostControl => self.boost_control,
            GeyserCapability::FaultStatus => self.fault_status,
            GeyserCapability::SetpointControl => self.setpoint_control,
        }
    }
}

} // verus!
