//! CMYK channel routing.
//!
//! In the screen-sync effect each device reacts to a different printer
//! channel of the sampled color: device 0 shows Cyan, 1 Magenta, 2 Yellow,
//! 3 Key (black), and the assignment repeats for further devices. The
//! decomposition itself is done in floating point at the edge of the
//! program; the routing is decided here.
use vstd::prelude::*;

verus! {

/// The channel letter at position `i` of the cycle C, M, Y, K.
pub open spec fn channel_letter(i: int) -> char {
    if i == 0 {
        'C'
    } else if i == 1 {
        'M'
    } else if i == 2 {
        'Y'
    } else {
        'K'
    }
}

/// Pick which CMYK channel a device at `device_index` is bound to.
pub fn channel_for_device(device_index: usize) -> (c: char)
    ensures
        c == channel_letter(device_index as int % 4),
{
    match device_index % 4 {
        0 => 'C',
        1 => 'M',
        2 => 'Y',
        _ => 'K',
    }
}

/// Channel routing repeats every four devices: device `i + 4` is bound to
/// the same channel as device `i`, and the four channels of one cycle are
/// all different.
pub proof fn law_channel_routing_cycles(i: int)
    requires
        0 <= i,
    ensures
        channel_letter((i + 4) % 4) == channel_letter(i % 4),
        channel_letter(0) == 'C' && channel_letter(1) == 'M' && channel_letter(2) == 'Y'
            && channel_letter(3) == 'K',
        i % 4 == 3 ==> channel_letter(i % 4) == 'K',
        channel_letter(0) != channel_letter(1),
        channel_letter(0) != channel_letter(2),
        channel_letter(0) != channel_letter(3),
        channel_letter(1) != channel_letter(2),
        channel_letter(1) != channel_letter(3),
        channel_letter(2) != channel_letter(3),
{
    vstd::arithmetic::div_mod::lemma_mod_add_multiples_vanish(i, 4);
}

} // verus!
