//! Per-device control decisions.
//!
//! A device is driven by sending one JSON request to `<device_ip>:4003`.
//! Which request is sent, and whether the device's SKU allows it at all,
//! is decided here; opening the socket and sending is done at the edge of
//! the program.
use vstd::prelude::*;

use super::capabilities::Capabilities;
use super::protocol::{Payload, RequestMessage};

verus! {

/// Default Govee LAN control port (per the spec).
pub const CONTROL_PORT: u16 = 4003;

/// Timeout for sending a single command, and for its acknowledgement.
pub const SEND_TIMEOUT_MS: u64 = 250;

/// Kelvin used for `colorwc` when none is given.
pub const DEFAULT_KELVIN: u16 = 6500;

/// Why a control request was refused before anything was sent.
#[derive(Debug)]
pub enum ControlError {
    /// The SKU does not accept `turn` / `turnOff`.
    PowerUnsupported { sku: String },
    /// The SKU does not accept `brightness`.
    BrightnessUnsupported { sku: String },
    /// The SKU accepts neither `color` nor `colorwc`.
    ColorUnsupported { sku: String },
}

/// The text of a control error.
pub open spec fn control_error_text(e: ControlError) -> Seq<char> {
    match e {
        ControlError::PowerUnsupported { sku } => "SKU "@ + sku@
            + " does not support power over LAN"@,
        ControlError::BrightnessUnsupported { sku } => "SKU "@ + sku@
            + " does not support brightness over LAN"@,
        ControlError::ColorUnsupported { sku } => "SKU "@ + sku@
            + " has neither color nor colorwc capability"@,
    }
}

/// Every control error message starts with "SKU ", followed by the SKU
/// that refused the request.
pub proof fn law_control_error_names_sku(e: ControlError)
    ensures
        ({
            let sku = match e {
                ControlError::PowerUnsupported { sku } => sku@,
                ControlError::BrightnessUnsupported { sku } => sku@,
                ControlError::ColorUnsupported { sku } => sku@,
            };
            let t = control_error_text(e);
            &&& t.len() > 4 + sku.len()
            &&& t.subrange(0, 4) == "SKU "@
            &&& t.subrange(4, 4 + sku.len() as int) == sku
        }),
{
    reveal_strlit("SKU ");
    reveal_strlit(" does not support power over LAN");
    reveal_strlit(" does not support brightness over LAN");
    reveal_strlit(" has neither color nor colorwc capability");
    let sku = match e {
        ControlError::PowerUnsupported { sku } => sku@,
        ControlError::BrightnessUnsupported { sku } => sku@,
        ControlError::ColorUnsupported { sku } => sku@,
    };
    let t = control_error_text(e);
    assert(t.subrange(0, 4) =~= "SKU "@);
    assert(t.subrange(4, 4 + sku.len() as int) =~= sku);
}

impl ControlError {
    /// Human-readable message, e.g. "SKU H9999 does not support power over LAN".
    pub fn message(&self) -> (s: String)
        ensures
            s@ == control_error_text(*self),
    {
        match self {
            ControlError::PowerUnsupported { sku } => {
                let mut s = String::from_str("SKU ");
                s.append(sku.as_str());
                s.append(" does not support power over LAN");
                s
            },
            ControlError::BrightnessUnsupported { sku } => {
                let mut s = String::from_str("SKU ");
                s.append(sku.as_str());
                s.append(" does not support brightness over LAN");
                s
            },
            ControlError::ColorUnsupported { sku } => {
                let mut s = String::from_str("SKU ");
                s.append(sku.as_str());
                s.append(" has neither color nor colorwc capability");
                s
            },
        }
    }
}

/// The request that switches a device on or off. Devices are addressed by
/// the textual form of their IP. Switching off uses `turnOff`, as the
/// official client does.
pub fn power_request(ip: &str, on: bool, caps: &Capabilities) -> (r: Result<
    RequestMessage,
    ControlError,
>)
    ensures
        !caps.power ==> (r matches Err(ControlError::PowerUnsupported { sku }) && sku@
            == caps.sku@),
        caps.power && on ==> (r matches Ok(m) && m.msg matches Payload::Turn(t) && t.id@ == ip@
            && t.value == 1),
        caps.power && !on ==> (r matches Ok(m) && m.msg == Payload::TurnOff),
{
    if !caps.power {
        return Err(ControlError::PowerUnsupported { sku: caps.sku.clone() });
    }
    if on {
        Ok(RequestMessage::turn(ip, true))
    } else {
        Ok(RequestMessage::turn_off(ip))
    }
}

/// The request that sets a device's brightness (clamped to 100).
pub fn brightness_request(ip: &str, pct: u8, caps: &Capabilities) -> (r: Result<
    RequestMessage,
    ControlError,
>)
    ensures
        !caps.brightness ==> (r matches Err(ControlError::BrightnessUnsupported { sku })
            && sku@ == caps.sku@),
        caps.brightness ==> (r matches Ok(m) && m.msg matches Payload::Brightness(b) && b.id@
            == ip@ && b.value == super::protocol::clamped_percent(pct)),
{
    if !caps.brightness {
        return Err(ControlError::BrightnessUnsupported { sku: caps.sku.clone() });
    }
    Ok(RequestMessage::brightness(ip, pct))
}

/// The request that sets a device's color. When the SKU accepts `colorwc`
/// and a Kelvin value is given, `colorwc` is used (some RGBIC strips
/// silently ignore `color` when the white channel needs to be reset);
/// otherwise plain `color` if the SKU accepts it.
pub fn color_request(
    ip: &str,
    r: u8,
    g: u8,
    b: u8,
    caps: &Capabilities,
    kelvin: Option<u16>,
) -> (res: Result<RequestMessage, ControlError>)
    ensures
        caps.color_wc && kelvin is Some ==> (res matches Ok(m) && m.msg matches Payload::ColorWc(
            c,
        ) && c.id@ == ip@ && c.r == r && c.g == g && c.b == b && c.colorTemInKelvin
            == kelvin->0),
        !(caps.color_wc && kelvin is Some) && caps.color_rgb ==> (res matches Ok(m)
            && m.msg matches Payload::Color(c) && c.id@ == ip@ && c.r == r && c.g == g && c.b
            == b),
        !(caps.color_wc && kelvin is Some) && !caps.color_rgb ==> (res matches Err(
            ControlError::ColorUnsupported { sku },
        ) && sku@ == caps.sku@),
{
    if caps.color_wc && kelvin.is_some() {
        let k = match kelvin {
            Some(k) => k,
            None => DEFAULT_KELVIN,
        };
        Ok(RequestMessage::color_wc(ip, r, g, b, k))
    } else if caps.color_rgb {
        Ok(RequestMessage::color(ip, r, g, b))
    } else {
        Err(ControlError::ColorUnsupported { sku: caps.sku.clone() })
    }
}

} // verus!
