//! Per-SKU capability map.
//!
//! Govee's LAN protocol exposes a fixed surface (color, brightness, on/off)
//! but individual SKUs differ in which commands actually work. This module
//! centralizes those quirks so the device-control layer does not have to
//! special-case each SKU.
use vstd::prelude::*;

use crate::text::text_eq;

verus! {

/// What a given Govee SKU is known to support on the LAN.
#[derive(Debug)]
pub struct Capabilities {
    /// SKU model number, e.g. "H6046".
    pub sku: String,
    /// Whether `cmd=turn` (0/1) is accepted.
    pub power: bool,
    /// Whether `cmd=brightness` is accepted (0..=100).
    pub brightness: bool,
    /// Whether `cmd=color` (raw RGB) is accepted.
    pub color_rgb: bool,
    /// Whether `cmd=colorwc` (RGB + Kelvin) is accepted.
    pub color_wc: bool,
    /// Human description (e.g. "Govee RGBIC LED Strip").
    pub description: &'static str,
    /// Whether the device supports segmented (multi-zone) effects on the LAN.
    /// Govee's LAN API does not expose per-segment color for RGBIC devices,
    /// so this is false for every SKU.
    pub segments_via_lan: bool,
}

impl Clone for Capabilities {
    fn clone(&self) -> (r: Self)
        ensures
            r == *self,
    {
        Capabilities {
            sku: self.sku.clone(),
            power: self.power,
            brightness: self.brightness,
            color_rgb: self.color_rgb,
            color_wc: self.color_wc,
            description: self.description,
            segments_via_lan: self.segments_via_lan,
        }
    }
}

/// The SKUs that have been characterized on the LAN.
pub open spec fn is_known_sku(sku: Seq<char>) -> bool {
    sku == "H6046"@ || sku == "H610A"@ || sku == "H6609"@
}

/// Whether a SKU accepts the `colorwc` command: the RGBIC strip and the TV
/// backlight do; the light bars and every uncharacterized SKU do not.
pub open spec fn sku_supports_colorwc(sku: Seq<char>) -> bool {
    if sku == "H6046"@ {
        false
    } else {
        sku == "H610A"@ || sku == "H6609"@
    }
}

/// The human description reported for a SKU.
pub open spec fn sku_description(sku: Seq<char>) -> Seq<char> {
    if sku == "H6046"@ {
        "Govee RGBIC LED Light Bars"@
    } else if sku == "H610A"@ {
        "Govee RGBIC LED Strip"@
    } else if sku == "H6609"@ {
        "Govee TV Backlight 3 Lite"@
    } else {
        "Unknown Govee SKU (conservative defaults)"@
    }
}

/// The capabilities that `for_sku` reports for `sku`, in full.
pub open spec fn capabilities_for(c: Capabilities, sku: Seq<char>) -> bool {
    &&& c.sku@ == sku
    &&& c.power
    &&& c.brightness
    &&& c.color_rgb
    &&& c.color_wc == sku_supports_colorwc(sku)
    &&& c.description@ == sku_description(sku)
    &&& !c.segments_via_lan
}

impl Capabilities {
    /// Look up known capabilities by SKU. Falls back to a conservative
    /// default (color_rgb + brightness + power only) for any SKU that has
    /// not been characterized yet, so discovery still works on devices we
    /// do not recognize and missing features fail safely.
    pub fn for_sku(sku: &str) -> (c: Self)
        ensures
            capabilities_for(c, sku@),
    {
        let owned = sku.to_owned();
        if text_eq(sku, "H6046") {
            // RGBIC LED light bars (pair)
            Capabilities {
                sku: owned,
                power: true,
                brightness: true,
                color_rgb: true,
                color_wc: false,
                description: "Govee RGBIC LED Light Bars",
                segments_via_lan: false,
            }
        } else if text_eq(sku, "H610A") {
            // RGBIC LED strip light
            Capabilities {
                sku: owned,
                power: true,
                brightness: true,
                color_rgb: true,
                color_wc: true,
                description: "Govee RGBIC LED Strip",
                segments_via_lan: false,
            }
        } else if text_eq(sku, "H6609") {
            // TV Backlight 3 Lite (camera + RGBIC strip)
            Capabilities {
                sku: owned,
                power: true,
                brightness: true,
                color_rgb: true,
                color_wc: true,
                description: "Govee TV Backlight 3 Lite",
                segments_via_lan: false,
            }
        } else {
            Capabilities {
                sku: owned,
                power: true,
                brightness: true,
                color_rgb: true,
                color_wc: false,
                description: "Unknown Govee SKU (conservative defaults)",
                segments_via_lan: false,
            }
        }
    }
}

/// The characterized SKUs: the light bars take plain color only, the RGBIC
/// strip and the TV backlight also take `colorwc`; every SKU takes power,
/// brightness and raw color, none exposes segments, and the record keeps
/// the SKU it was asked for.
pub proof fn law_known_sku_capabilities(c: Capabilities, sku: Seq<char>)
    requires
        capabilities_for(c, sku),
    ensures
        c.sku@ == sku,
        c.power && c.brightness && c.color_rgb && !c.segments_via_lan,
        sku == "H6046"@ ==> !c.color_wc && c.description@ == "Govee RGBIC LED Light Bars"@,
        sku == "H610A"@ ==> c.color_wc && c.description@ == "Govee RGBIC LED Strip"@,
        sku == "H6609"@ ==> c.color_wc && c.description@ == "Govee TV Backlight 3 Lite"@,
        c.color_wc ==> (sku == "H610A"@ || sku == "H6609"@),
{
    reveal_strlit("H6046");
    reveal_strlit("H610A");
    reveal_strlit("H6609");
    assert("H610A"@[2] != "H6046"@[2]);
    assert("H6609"@[2] != "H6046"@[2]);
    assert("H6609"@[2] != "H610A"@[2]);
}

/// Every SKU that has not been characterized gets the conservative
/// defaults: basic color, brightness and power, nothing fancier.
pub proof fn law_unknown_sku_is_conservative(c: Capabilities, sku: Seq<char>)
    requires
        capabilities_for(c, sku),
        !is_known_sku(sku),
    ensures
        c.power && c.brightness && c.color_rgb,
        !c.color_wc,
        !c.segments_via_lan,
        c.description@ == "Unknown Govee SKU (conservative defaults)"@,
{
}

} // verus!
