//! Message types for the Govee LAN protocol.
//!
//! A request is `{"msg": {"cmd": <command>, ...fields}}`; the `cmd` names
//! are in [`cmd`]. The JSON encoding itself is done at the edge of the
//! program; here the messages are plain values.
pub mod cmd;

use vstd::prelude::*;

verus! {

/// A request we send to the LAN.
#[derive(Debug, Clone)]
pub struct RequestMessage {
    pub msg: Payload,
}

/// The body of a request, tagged by its `cmd` field.
#[derive(Debug, Clone)]
pub enum Payload {
    /// `cmd = "scan"`
    Scan(Scan),
    /// `cmd = "devStatus"`
    DevStatus(DevStatus),
    /// `cmd = "turn"`
    Turn(Turn),
    /// `cmd = "turnOff"`
    TurnOff,
    /// `cmd = "brightness"`
    Brightness(Brightness),
    /// `cmd = "color"`
    Color(Color),
    /// `cmd = "colorwc"`
    ColorWc(ColorWc),
}

#[derive(Debug, Clone)]
pub struct Scan {}

impl Default for Scan {
    fn default() -> (s: Self)
        ensures
            s == (Scan {}),
    {
        Scan {}
    }
}

#[derive(Debug, Clone)]
pub struct DevStatus {
    pub id: String,
}

impl Default for DevStatus {
    fn default() -> (s: Self)
        ensures
            s.id@ == Seq::<char>::empty(),
    {
        DevStatus { id: String::new() }
    }
}

#[derive(Debug, Clone)]
pub struct Turn {
    pub id: String,
    /// 0 or 1
    pub value: u8,
}

#[derive(Debug, Clone)]
pub struct Brightness {
    pub id: String,
    /// 0..=100
    pub value: u8,
}

#[derive(Debug, Clone)]
pub struct Color {
    pub id: String,
    pub r: u8,
    pub g: u8,
    pub b: u8,
}

/// Color with white / color temperature channel. Some Govee SKUs require this
/// instead of plain `color` to drive their RGB+CCT strips properly.
#[allow(non_snake_case)]
#[derive(Debug, Clone)]
pub struct ColorWc {
    pub id: String,
    pub r: u8,
    pub g: u8,
    pub b: u8,
    pub colorTemInKelvin: u16,
}

/// A response from the LAN, tagged by its `cmd` field.
#[derive(Debug, Clone)]
pub struct ResponseMessage {
    pub msg: ResponsePayload,
}

#[derive(Debug, Clone)]
pub enum ResponsePayload {
    /// `cmd = "scan"`
    Scan(ScanResponse),
    /// `cmd = "devStatus"`
    DevStatus(DevStatusResponse),
    /// Any other `cmd`: devices sometimes echo back commands we do not know.
    Unknown,
}

#[derive(Debug, Clone)]
pub struct ScanResponse {
    pub ip: String,
    /// The device id.
    pub device: String,
    pub sku: String,
    pub version: Option<String>,
}

#[derive(Debug, Clone)]
pub struct DevStatusResponse {
    pub id: String,
    pub on: Option<bool>,
    pub brightness: Option<u8>,
}

/// The brightness value a request carries for a requested percentage:
/// anything above 100 is clamped to 100.
pub open spec fn clamped_percent(pct: u8) -> u8 {
    if pct > 100 {
        100
    } else {
        pct
    }
}

/// A brightness value never exceeds 100, and a requested percentage of at
/// most 100 is sent unchanged.
pub proof fn law_brightness_is_clamped(pct: u8)
    ensures
        clamped_percent(pct) <= 100,
        pct <= 100 ==> clamped_percent(pct) == pct,
        pct > 100 ==> clamped_percent(pct) == 100,
{
}

/// Helper constructors.
impl RequestMessage {
    /// `{"msg":{"cmd":"scan"}}`
    pub fn scan() -> (m: Self)
        ensures
            m.msg == Payload::Scan(Scan {}),
    {
        RequestMessage { msg: Payload::Scan(Scan::default()) }
    }

    /// Ask a device for its status.
    pub fn dev_status(id: &str) -> (m: Self)
        ensures
            m.msg matches Payload::DevStatus(d) && d.id@ == id@,
    {
        RequestMessage { msg: Payload::DevStatus(DevStatus { id: id.to_owned() }) }
    }

    /// Switch a device on (`value` 1) or off (`value` 0).
    pub fn turn(id: &str, on: bool) -> (m: Self)
        ensures
            m.msg matches Payload::Turn(t) && t.id@ == id@ && t.value == (if on {
                1u8
            } else {
                0u8
            }),
    {
        RequestMessage {
            msg: Payload::Turn(Turn { id: id.to_owned(), value: if on { 1 } else { 0 } }),
        }
    }

    /// `turnOff` carries no fields; the id is not part of the message.
    pub fn turn_off(_id: &str) -> (m: Self)
        ensures
            m.msg == Payload::TurnOff,
    {
        RequestMessage { msg: Payload::TurnOff }
    }

    /// Set the brightness percentage; values above 100 are clamped to 100.
    pub fn brightness(id: &str, pct: u8) -> (m: Self)
        ensures
            m.msg matches Payload::Brightness(b) && b.id@ == id@ && b.value == clamped_percent(
                pct,
            ),
    {
        let value: u8 = if pct > 100 { 100 } else { pct };
        RequestMessage { msg: Payload::Brightness(Brightness { id: id.to_owned(), value }) }
    }

    /// Set a raw RGB color.
    pub fn color(id: &str, r: u8, g: u8, b: u8) -> (m: Self)
        ensures
            m.msg matches Payload::Color(c) && c.id@ == id@ && c.r == r && c.g == g && c.b == b,
    {
        RequestMessage { msg: Payload::Color(Color { id: id.to_owned(), r, g, b }) }
    }

    /// Set an RGB color together with a white color temperature.
    pub fn color_wc(id: &str, r: u8, g: u8, b: u8, kelvin: u16) -> (m: Self)
        ensures
            m.msg matches Payload::ColorWc(c) && c.id@ == id@ && c.r == r && c.g == g && c.b == b
                && c.colorTemInKelvin == kelvin,
    {
        RequestMessage {
            msg: Payload::ColorWc(ColorWc { id: id.to_owned(), r, g, b, colorTemInKelvin: kelvin }),
        }
    }
}

} // verus!
