//! Topics and payloads of the Geyserwala MQTT integration.
//!
//! State arrives on `{prefix}/stat/{device}/{field}`; commands go to
//! `{prefix}/cmnd/{device}/{field}`. Boolean payloads are `ON` and `OFF`.

use vstd::prelude::*;
use vstd::string::{StrSliceExecFns, StringExecFns};

verus! {

/// The topic filter that subscribes to every state topic of a device.
pub fn stat_wildcard(prefix: &str, device_id: &str) -> (t: String)
    ensures
        t@ == prefix@ + "/stat/"@ + device_id@ + "/#"@,
{
    <String as StringExecFns>::from_str(prefix).concat("/stat/").concat(device_id).concat("/#")
}

/// The part of a state topic before the field name.
pub fn stat_prefix(prefix: &str, device_id: &str) -> (t: String)
    ensures
        t@ == prefix@ + "/stat/"@ + device_id@ + "/"@,
{
    <String as StringExecFns>::from_str(prefix).concat("/stat/").concat(device_id).concat("/")
}

/// The command topic for `field` of a device.
pub fn command_topic(prefix: &str, device_id: &str, field: &str) -> (t: String)
    ensures
        t@ == prefix@ + "/cmnd/"@ + device_id@ + "/"@ + field@,
{
    <String as StringExecFns>::from_str(prefix).concat("/cmnd/").concat(device_id).concat("/").concat(
        field,
    )
}

/// The payload that commands a boolean field.
pub fn on_off_payload(on: bool) -> (p: &'static str)
    ensures
        on ==> p@ == "ON"@,
        !on ==> p@ == "OFF"@,
{
    if on {
        "ON"
    } else {
        "OFF"
    }
}

/// `c` with ASCII upper case letters mapped to lower case.
pub open spec fn ascii_lower(c: char) -> char {
    if 'A' <= c <= 'Z' {
        ((c as u32) + 32) as char
    } else {
        c
    }
}

/// Whether a boolean payload reads as on: it is `on` in any ASCII case.
pub open spec fn reads_on(raw: Seq<char>) -> bool {
    raw.len() == 2 && ascii_lower(raw[0]) == 'o' && ascii_lower(raw[1]) == 'n'
}

/// Whether a boolean payload reads as on.
pub fn parse_on_off(raw: &str) -> (on: bool)
    ensures
        on == reads_on(raw@),
{
    if raw.unicode_len() != 2 {
        return false;
    }
    let a = raw.get_char(0);
    let b = raw.get_char(1);
    (a == 'o' || a == 'O') && (b == 'n' || b == 'N')
}

/// Every payload this integration sends for a boolean reads back as the
/// same boolean.
pub proof fn lemma_on_off_round_trip(on: bool, p: Seq<char>)
    requires
        on ==> p == "ON"@,
        !on ==> p == "OFF"@,
    ensures
        reads_on(p) == on,
{
    reveal_strlit("ON");
    reveal_strlit("OFF");
}

/// A state field of the Geyserwala device.
#[derive(Debug, Clone, Copy, PartialEq, Eq, Structural)]
pub enum StatField {
    TankTemp,
    CollectorTemp,
    ElementDemand,
    PumpStatus,
    Setpoint,
    /// Any other topic.
    Other,
}

/// The field a state topic names: what follows `stat_prefix` when the topic
/// starts with it, and nothing otherwise.
pub open spec fn topic_field(topic: Seq<char>, stat_prefix: Seq<char>) -> Seq<char> {
    if stat_prefix.len() <= topic.len() && topic.take(stat_prefix.len() as int) == stat_prefix {
        topic.skip(stat_prefix.len() as int)
    } else {
        Seq::empty()
    }
}

/// The state field a field name stands for.
pub open spec fn field_of(name: Seq<char>) -> StatField {
    if name == "tank-temp"@ {
        StatField::TankTemp
    } else if name == "collector-temp"@ {
        StatField::CollectorTemp
    } else if name == "element-demand"@ {
        StatField::ElementDemand
    } else if name == "pump-status"@ {
        StatField::PumpStatus
    } else if name == "setpoint"@ {
        StatField::Setpoint
    } else {
        StatField::Other
    }
}

/// Whether `prefix` starts `s`.
fn starts_with(s: &str, prefix: &str) -> (b: bool)
    ensures
        b == (prefix@.len() <= s@.len() && s@.take(prefix@.len() as int) == prefix@),
{
    let n = prefix.unicode_len();
    let m = s.unicode_len();
    if n > m {
        return false;
    }
    let mut i: usize = 0;
    while i < n
        invariant
            n == prefix@.len(),
            m == s@.len(),
            n <= m,
            0 <= i <= n,
            forall|j: int| 0 <= j < i ==> s@[j] == prefix@[j],
        decreases n - i,
    {
        if s.get_char(i) != prefix.get_char(i) {
            assert(s@.take(n as int)[i as int] != prefix@[i as int]);
            return false;
        }
        i = i + 1;
    }
    assert(s@.take(n as int) =~= prefix@);
    true
}

/// Whether `a` and `b` hold the same characters.
fn same_text(a: &str, b: &str) -> (eq: bool)
    ensures
        eq == (a@ == b@),
{
    <String as StringExecFns>::from_str(a) == <String as StringExecFns>::from_str(b)
}

impl StatField {
    /// The field of a message received on `topic`, given the device's
    /// state-topic prefix.
    pub fn of_topic(topic: &str, stat_prefix: &str) -> (f: StatField)
        ensures
            f == field_of(topic_field(topic@, stat_prefix@)),
    {
        let field: &str = if starts_with(topic, stat_prefix) {
            topic.substring_char(stat_prefix.unicode_len(), topic.unicode_len())
        } else {
            ""
        };
        proof {
            reveal_strlit("");
            if !(stat_prefix@.len() <= topic@.len() && topic@.take(stat_prefix@.len() as int) == stat_prefix@) {
                assert(field@ =~= Seq::<char>::empty());
            } else {
                assert(field@ =~= topic@.skip(stat_prefix@.len() as int));
            }
        }
        if same_text(field, "tank-temp") {
            StatField::TankTemp
        } else if same_text(field, "collector-temp") {
            StatField::CollectorTemp
        } else if same_text(field, "element-demand") {
            StatField::ElementDemand
        } else if same_text(field, "pump-status") {
            StatField::PumpStatus
        } else if same_text(field, "setpoint") {
            StatField::Setpoint
        } else {
            StatField::Other
        }
    }
}

} // verus!
