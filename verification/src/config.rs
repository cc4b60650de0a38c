//! Defaults of the service settings that are whole numbers or text.

use vstd::prelude::*;
use vstd::string::StringExecFns;

verus! {

/// Default buffer (minutes) before a predicted use to stop heating.
pub fn default_cutoff_buffer_min() -> (m: u32)
    ensures
        m == 30,
{
    30
}

/// Default safety margin (minutes) added to the heating lead time.
pub fn default_safety_margin_min() -> (m: u32)
    ensures
        m == 20,
{
    20
}

/// Default number of days between forced legionella cycles.
pub fn default_legionella_interval_days() -> (d: u32)
    ensures
        d == 7,
{
    7
}

/// Default seconds between scheduler ticks.
pub fn default_tick_interval() -> (s: u32)
    ensures
        s == 60,
{
    60
}

/// Default HTTP request timeout (seconds) for the Geyserwala REST API.
pub fn default_timeout_secs() -> (s: u64)
    ensures
        s == 10,
{
    10
}

/// Default MQTT broker port.
pub fn default_mqtt_port() -> (p: u16)
    ensures
        p == 1883,
{
    1883
}

/// Default MQTT topic prefix, placed before `stat` and `cmnd`.
pub fn default_topic_prefix() -> (p: String)
    ensures
        p@ == "geyserwala"@,
{
    <String as StringExecFns>::from_str("geyserwala")
}

} // verus!
