//! Solid effect: drives devices to a single static color.
use vstd::prelude::*;

use super::{Effect, Rgb};

verus! {

/// The color a solid effect shows; `None` for every other effect.
pub open spec fn solid_color(effect: Effect) -> Option<Rgb> {
    match effect {
        Effect::Solid { color } => Some(color),
        _ => None,
    }
}

/// The color to show at time `now_ms`. A solid effect shows its color at
/// every instant; other effects are not handled here.
pub fn step(effect: &Effect, _now_ms: u64) -> (r: Option<Rgb>)
    ensures
        r == solid_color(*effect),
        forall|c: Rgb| *effect == (Effect::Solid { color: c }) ==> r == Some(c),
        !(*effect is Solid) ==> r is None,
{
    match effect {
        Effect::Solid { color } => Some(*color),
        _ => None,
    }
}

} // verus!
