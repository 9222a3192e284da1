//! Effect engine: maps abstract effects to per-frame color decisions for a
//! set of devices.
//!
//! Screen capture produces a BGRA frame that the sampler reduces to
//! `ColorZone`s; the screen-sync loop then runs a CMYK decomposition to
//! drive each device with a different printer channel.
pub mod cmyk;
pub mod scheduler;
pub mod screen_sync;
pub mod solid;

use vstd::prelude::*;

verus! {

/// An RGB color.
#[derive(Debug, Clone, Copy, PartialEq, Eq, Structural)]
pub struct Rgb(pub u8, pub u8, pub u8);

/// The effects a set of lights can run.
#[derive(Debug, Clone)]
pub enum Effect {
    /// A single static color.
    Solid { color: Rgb },
    /// A color fading in and out with the given period.
    Breathing { color: Rgb, period_ms: u32 },
    /// A hue rotation with the given period.
    Rainbow { period_ms: u32 },
    /// Colors sampled from the screen.
    ScreenSync,
}

/// The color of one screen zone (or of one sampled pixel).
#[derive(Debug, Clone, Copy)]
pub struct ColorZone {
    pub r: u8,
    pub g: u8,
    pub b: u8,
}

} // verus!
