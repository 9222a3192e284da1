//! Multicast discovery for Govee LAN devices.
//!
//! A scan sends `{"msg":{"cmd":"scan"}}` to `239.255.255.250:4001` and
//! listens on port 4002 for replies carrying each device's IP, SKU and id.
//! The sockets and the wait are at the edge of the program; what each
//! outcome of a wait does to the registry being built is decided here.
use vstd::prelude::*;

use super::capabilities::capabilities_for;
use super::{DeviceRegistry, LanDevice};

verus! {

/// Multicast group Govee uses for LAN discovery.
pub const MULTICAST_ADDR: [u8; 4] = [239, 255, 255, 250];

/// UDP port to send scan requests to.
pub const SCAN_SEND_PORT: u16 = 4001;

/// UDP port devices reply on.
pub const SCAN_RECV_PORT: u16 = 4002;

/// How long a single discovery scan listens before giving up.
pub const SCAN_DURATION_MS: u64 = 3000;

/// The outcome of one wait for a scan reply.
pub enum ScanEvent {
    /// A reply that parsed: the device id and SKU it carried, the address
    /// it came from and the monotonic time (ns) it arrived.
    Reply { device: String, sku: String, ip: String, seen_ns: u64 },
    /// A datagram that was not a scan reply.
    Unparseable,
    /// The socket reported an error.
    ReceiveFailed,
    /// The scan window is over (the wait timed out or the deadline passed).
    TimedOut,
}

/// The record a reply describes.
pub open spec fn reply_record(d: LanDevice, device: Seq<char>, sku: Seq<char>, ip: Seq<char>, seen_ns: u64) -> bool {
    &&& d.id@ == device
    &&& d.friendly_name@ == Seq::<char>::empty()
    &&& d.sku@ == sku
    &&& d.ip@ == ip
    &&& d.last_seen_ns == seen_ns
    &&& capabilities_for(d.capabilities, sku)
    &&& d.power is None
    &&& d.brightness is None
    &&& d.color is None
}

/// Apply one scan outcome to the registry being built, and say whether to
/// keep listening. A reply records (or refreshes) its device under the
/// device id it carried; an unparseable datagram is skipped; a socket
/// error or the end of the window ends the scan.
pub fn apply_scan_event(registry: &mut DeviceRegistry, ev: ScanEvent) -> (keep_listening: bool)
    ensures
        match ev {
            ScanEvent::Reply { device, sku, ip, seen_ns } => {
                &&& keep_listening
                &&& final(registry)@.dom() == old(registry)@.dom().insert(device@)
                &&& reply_record(final(registry)@[device@], device@, sku@, ip@, seen_ns)
                &&& forall|k: Seq<char>|
                    k != device@ && #[trigger] old(registry)@.contains_key(k)
                        ==> final(registry)@[k] == old(registry)@[k]
            },
            ScanEvent::Unparseable => keep_listening && final(registry)@ == old(registry)@,
            _ => !keep_listening && final(registry)@ == old(registry)@,
        },
{
    match ev {
        ScanEvent::Reply { device, sku, ip, seen_ns } => {
            let dev = LanDevice::from_scan(device, sku, ip, seen_ns);
            let _ = registry.insert(dev);
            true
        },
        ScanEvent::Unparseable => true,
        ScanEvent::ReceiveFailed => false,
        ScanEvent::TimedOut => false,
    }
}

} // verus!
