//! Command field values (the `cmd` string in the JSON payload).
use vstd::prelude::*;

verus! {

pub const SCAN: &'static str = "scan";

pub const DEVS_STATUS: &'static str = "devStatus";

pub const TURN: &'static str = "turn";

pub const TURN_OFF: &'static str = "turnOff";

pub const BRIGHTNESS: &'static str = "brightness";

pub const COLOR: &'static str = "color";

pub const COLOR_WC: &'static str = "colorwc";

} // verus!
