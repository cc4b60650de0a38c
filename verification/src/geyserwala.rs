//! What the Geyserwala Connect providers are: their names, their hardware,
//! their capabilities, and the addresses of the local HTTP API.

use crate::capability::{GeyserCapabilities, GeyserCapability};
use crate::system::{PumpVoltage, SystemKind};
use reqwest::header::{HeaderValue, InvalidHeaderValue};
use vstd::prelude::*;
use vstd::string::StringExecFns;
use vstd::utf8::encode_utf8;

verus! {

/// Name of the REST provider, for logs and the API.
pub fn rest_provider_name() -> (s: &'static str)
    ensures
        s@ == "Geyserwala Connect"@,
{
    "Geyserwala Connect"
}

/// Name of the MQTT provider, for logs and the API.
pub fn mqtt_provider_name() -> (s: &'static str)
    ensures
        s@ == "Geyserwala Connect (MQTT)"@,
{
    "Geyserwala Connect (MQTT)"
}

/// A Geyserwala drives a pumped solar geyser. The device does not report the
/// voltage of the pump wired to it: that comes from the configuration.
pub fn system(pump_voltage: PumpVoltage) -> (k: SystemKind)
    ensures
        k == (SystemKind::SolarPumped { pump_voltage }),
{
    SystemKind::SolarPumped { pump_voltage }
}

/// What a Geyserwala offers: tank and collector temperatures, element,
/// boost and setpoint control. The pump is run by the firmware and cannot be
/// commanded.
pub fn capabilities() -> (c: GeyserCapabilities)
    ensures
        c@ == set![
            GeyserCapability::TankTemp,
            GeyserCapability::CollectorTemp,
            GeyserCapability::ElementControl,
            GeyserCapability::BoostControl,
            GeyserCapability::SetpointControl,
        ],
{
    let mut c = GeyserCapabilities::new();
    c.insert(GeyserCapability::TankTemp);
    c.insert(GeyserCapability::CollectorTemp);
    c.insert(GeyserCapability::ElementControl);
    c.insert(GeyserCapability::BoostControl);
    c.insert(GeyserCapability::SetpointControl);
    assert(c@ =~= set![
        GeyserCapability::TankTemp,
        GeyserCapability::CollectorTemp,
        GeyserCapability::ElementControl,
        GeyserCapability::BoostControl,
        GeyserCapability::SetpointControl,
    ]);
    c
}

/// The address that reads the tank state.
pub fn state_url(base_url: &str) -> (u: String)
    ensures
        u@ == base_url@ + "/api/value?f=tank-temp,collector-temp,element-demand,pump-status"@,
{
    <String as StringExecFns>::from_str(base_url).concat(
        "/api/value?f=tank-temp,collector-temp,element-demand,pump-status",
    )
}

/// The address that reads the setpoint.
pub fn setpoint_url(base_url: &str) -> (u: String)
    ensures
        u@ == base_url@ + "/api/value?f=setpoint"@,
{
    <String as StringExecFns>::from_str(base_url).concat("/api/value?f=setpoint")
}

/// The address that values are written to.
pub fn value_url(base_url: &str) -> (u: String)
    ensures
        u@ == base_url@ + "/api/value"@,
{
    <String as StringExecFns>::from_str(base_url).concat("/api/value")
}

/// The `Authorization` header value for a bearer token.
pub fn bearer_value(token: &str) -> (v: String)
    ensures
        v@ == "Bearer "@ + token@,
{
    <String as StringExecFns>::from_str("Bearer ").concat(token)
}

#[verifier::external_type_specification]
#[verifier::external_body]
pub struct ExHeaderValue(reqwest::header::HeaderValue);

#[verifier::external_type_specification]
#[verifier::external_body]
pub struct ExInvalidHeaderValue(reqwest::header::InvalidHeaderValue);

/// A byte that may stand in an HTTP header value: visible ASCII, a space,
/// a horizontal tab, or any byte at or above 0x80.
pub open spec fn header_byte_ok(b: u8) -> bool {
    (b >= 32 && b != 127) || b == 9
}

/// Bytes that make a valid HTTP header value: every byte may stand in one.
pub open spec fn header_bytes_ok(bytes: Seq<u8>) -> bool {
    forall|i: int| 0 <= i < bytes.len() ==> header_byte_ok(#[trigger] bytes[i])
}

/// The header value that `HeaderValue::from_str` builds from `text`.
pub uninterp spec fn header_value_of(text: Seq<char>) -> HeaderValue;

/// `HeaderValue::from_str` of the `http` crate, as `reqwest` re-exports it:
/// it accepts the text exactly when each of its UTF-8 bytes may stand in a
/// header value, and refuses it otherwise; what it accepts is the header
/// value of that text.
#[verifier::external_body]
fn header_value_from_str(text: &str) -> (r: Result<HeaderValue, InvalidHeaderValue>)
    ensures
        r is Ok <==> header_bytes_ok(encode_utf8(text@)),
        r matches Ok(h) ==> h == header_value_of(text@),
{
    HeaderValue::from_str(text)
}

/// The bearer token holds a character that cannot stand in an HTTP header.
#[derive(Debug, Clone, Copy, PartialEq, Eq, Structural)]
pub enum TokenError {
    InvalidHeaderCharacters,
}

/// The `Authorization` header for a bearer token: `Bearer ` and the token,
/// accepted exactly when its UTF-8 bytes make a valid header value.
pub fn authorization_header(token: &str) -> (r: Result<HeaderValue, TokenError>)
    ensures
        r is Ok <==> header_bytes_ok(encode_utf8("Bearer "@ + token@)),
        r matches Ok(h) ==> h == header_value_of("Bearer "@ + token@),
        r is Err ==> r == Err::<HeaderValue, TokenError>(TokenError::InvalidHeaderCharacters),
{
    let value = bearer_value(token);
    match header_value_from_str(value.as_str()) {
        Ok(h) => Ok(h),
        Err(_) => Err(TokenError::InvalidHeaderCharacters),
    }
}

} // verus!
