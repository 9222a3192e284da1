//! Screen-sync loop decisions.
//!
//! The screen-sync loop waits for the next frame tick (or a stop request),
//! grabs the configured zones from the screen and pushes one color command
//! per device. The waiting, capturing and sending are done at the edge of
//! the program; what to do with each outcome is decided here.
use vstd::prelude::*;

use super::ColorZone;
use crate::capture::CaptureError;

verus! {

/// How long to wait after a capture failure other than a timeout, to give
/// the GPU a moment to recover.
pub const CAPTURE_BACKOFF_MS: u64 = 100;

/// The frame interval, in milliseconds, for a target frame rate; a rate of
/// zero is treated as one frame per second.
pub open spec fn interval_for(fps: u32) -> u64 {
    (1000u32 / if fps == 0 {
        1u32
    } else {
        fps
    }) as u64
}

/// The frame interval is the whole number of milliseconds in one frame:
/// `fps` intervals fit in a second and one more millisecond each would not;
/// a rate of zero gives one frame per second.
pub proof fn law_interval_is_whole_ms_per_frame(fps: u32)
    ensures
        fps == 0 ==> interval_for(fps) == 1000,
        fps > 0 ==> interval_for(fps) * fps <= 1000 < (interval_for(fps) + 1) * fps,
{
    if fps > 0 {
        let q = 1000u32 / fps;
        assert(q == interval_for(fps));
        vstd::arithmetic::div_mod::lemma_fundamental_div_mod(1000, fps as int);
        assert(q * fps <= 1000 < (q + 1) * fps) by (nonlinear_arith)
            requires
                1000int == fps * (1000int / (fps as int)) + 1000int % (fps as int),
                0 <= 1000int % (fps as int) < fps,
                q == 1000int / (fps as int),
        ;
    }
}

/// Frame interval in milliseconds for `fps` frames per second.
pub fn frame_interval_ms(fps: u32) -> (ms: u64)
    ensures
        ms == interval_for(fps),
{
    let f: u32 = if fps == 0 { 1 } else { fps };
    (1000 / f) as u64
}

/// What happened while the loop waited.
pub enum FrameEvent {
    /// The frame tick came and the zones were captured.
    Zones(Vec<ColorZone>),
    /// The frame tick came but capturing failed.
    CaptureFailed(CaptureError),
    /// A stop was requested.
    StopRequested,
}

/// What the loop does next.
#[derive(Debug)]
pub enum FrameAction {
    /// Drive every device from this zone color: the device at position
    /// `i` of the target list shows CMYK channel `i % 4` of it.
    Push(ColorZone),
    /// No new frame yet; wait for the next tick.
    SkipFrame,
    /// Wait this many milliseconds, then wait for the next tick.
    Backoff { ms: u64 },
    /// Leave the loop.
    Exit,
}

/// The color every device is driven from for a set of zone colors: the
/// first zone, or black when no zone was captured.
pub open spec fn driving_zone(zones: Seq<ColorZone>) -> ColorZone {
    if zones.len() > 0 {
        zones[0]
    } else {
        ColorZone { r: 0, g: 0, b: 0 }
    }
}

/// Decide what the loop does after `event`.
pub fn next_action(event: &FrameEvent) -> (a: FrameAction)
    ensures
        match *event {
            FrameEvent::Zones(zs) => a == FrameAction::Push(driving_zone(zs@)),
            FrameEvent::CaptureFailed(e) => if e is Timeout {
                a is SkipFrame
            } else {
                a == (FrameAction::Backoff { ms: CAPTURE_BACKOFF_MS })
            },
            FrameEvent::StopRequested => a is Exit,
        },
        forall|zs: Vec<ColorZone>|
            *event == FrameEvent::Zones(zs) && zs@.len() > 0 ==> a == FrameAction::Push(zs@[0]),
        forall|zs: Vec<ColorZone>|
            *event == FrameEvent::Zones(zs) && zs@.len() == 0 ==> a == FrameAction::Push(
                ColorZone { r: 0, g: 0, b: 0 },
            ),
{
    match event {
        FrameEvent::Zones(zs) => {
            if zs.len() > 0 {
                FrameAction::Push(zs[0])
            } else {
                FrameAction::Push(ColorZone { r: 0, g: 0, b: 0 })
            }
        },
        FrameEvent::CaptureFailed(e) => match e {
            CaptureError::Timeout => FrameAction::SkipFrame,
            _ => FrameAction::Backoff { ms: CAPTURE_BACKOFF_MS },
        },
        FrameEvent::StopRequested => FrameAction::Exit,
    }
}

/// Devices are driven from the first captured zone whenever at least one
/// zone was captured; black is used only when none was.
pub proof fn law_first_zone_drives(zones: Seq<ColorZone>)
    ensures
        zones.len() > 0 ==> driving_zone(zones) == zones[0],
        zones.len() == 0 ==> driving_zone(zones) == (ColorZone { r: 0, g: 0, b: 0 }),
        forall|i: int|
            0 <= i < zones.len() ==> driving_zone(zones.subrange(i, zones.len() as int))
                == zones[i],
{
}

} // verus!
