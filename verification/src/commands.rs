//! The command surface offered to the user interface: what each command
//! computes from the device registry. Locking the shared state and talking
//! to devices are done at the edge of the program.
use vstd::prelude::*;

use crate::effects::{ColorZone, Effect};
use crate::govee::capabilities::Capabilities;
use crate::govee::{DeviceRegistry, LanDevice};

verus! {

/// One row of the device list.
#[derive(Debug)]
pub struct DeviceSummary {
    pub id: String,
    pub sku: String,
    pub ip: String,
    pub friendly_name: String,
    pub online: bool,
    pub power: Option<bool>,
    pub brightness: Option<u8>,
    pub color: Option<[u8; 3]>,
    pub description: String,
}

/// Arguments of the start-effect command.
#[derive(Debug)]
pub struct StartEffectArgs {
    pub effect: Effect,
}

/// `s` is the device-list row for record `d`. Every device in the registry
/// is listed as online.
pub open spec fn summarizes(s: DeviceSummary, d: LanDevice) -> bool {
    &&& s.id@ == d.id@
    &&& s.sku@ == d.sku@
    &&& s.ip@ == d.ip@
    &&& s.friendly_name@ == d.friendly_name@
    &&& s.online
    &&& s.power == d.power
    &&& s.brightness == d.brightness
    &&& s.color == d.color
    &&& s.description@ == d.capabilities.description@
}

/// The device-list row for one record.
pub fn summarize(d: &LanDevice) -> (s: DeviceSummary)
    ensures
        summarizes(s, *d),
        s.id@ == d.id@,
        s.sku@ == d.sku@,
        s.ip@ == d.ip@,
        s.friendly_name@ == d.friendly_name@,
        s.description@ == d.capabilities.description@,
{
    DeviceSummary {
        id: d.id.clone(),
        sku: d.sku.clone(),
        ip: d.ip.clone(),
        friendly_name: d.friendly_name.clone(),
        online: true,
        power: d.power,
        brightness: d.brightness,
        color: d.color,
        description: d.capabilities.description.to_owned(),
    }
}

/// The device list: one row per known device, in registry order.
pub fn list_devices(registry: &DeviceRegistry) -> (rows: Vec<DeviceSummary>)
    ensures
        rows@.len() == registry.entries().len(),
        forall|i: int|
            0 <= i < rows@.len() ==> summarizes(#[trigger] rows@[i], registry.entries()[i]),
        forall|i: int|
            0 <= i < rows@.len() ==> {
                &&& (#[trigger] rows@[i]).id@ == registry.entries()[i].id@
                &&& rows@[i].sku@ == registry.entries()[i].sku@
                &&& rows@[i].ip@ == registry.entries()[i].ip@
                &&& rows@[i].description@ == registry.entries()[i].capabilities.description@
            },
{
    let devices = registry.devices();
    let n = devices.len();
    let mut rows: Vec<DeviceSummary> = Vec::new();
    let mut i: usize = 0;
    while i < n
        invariant
            n == devices@.len(),
            devices@ == registry.entries(),
            i <= n,
            rows@.len() == i,
            forall|j: int| 0 <= j < i ==> summarizes(#[trigger] rows@[j], devices@[j]),
        decreases n - i,
    {
        rows.push(summarize(&devices[i]));
        i = i + 1;
    }
    rows
}

/// A device-list row carries its record's id, SKU, address, name, cached
/// state and description, each in its own field, and is listed online.
pub proof fn law_row_fields_come_from_record(s: DeviceSummary, d: LanDevice)
    requires
        summarizes(s, d),
    ensures
        s.id@ == d.id@,
        s.sku@ == d.sku@,
        s.ip@ == d.ip@,
        s.friendly_name@ == d.friendly_name@,
        s.online,
        s.power == d.power,
        s.brightness == d.brightness,
        s.color == d.color,
        s.description@ == d.capabilities.description@,
{
}

/// The error text for an id that is not in the registry.
pub open spec fn unknown_device_text(id: Seq<char>) -> Seq<char> {
    "unknown device id: "@ + id
}

/// The address and capabilities of device `id`, or an error naming the id
/// when no such device is known.
pub fn lookup(registry: &DeviceRegistry, id: &str) -> (r: Result<(String, Capabilities), String>)
    ensures
        registry@.contains_key(id@) ==> (r matches Ok((ip, caps)) && ip@ == registry@[id@].ip@
            && caps == registry@[id@].capabilities),
        !registry@.contains_key(id@) ==> (r matches Err(msg) && msg@ == unknown_device_text(
            id@,
        )),
{
    match registry.get(id) {
        Some(dev) => Ok((dev.ip.clone(), dev.capabilities.clone())),
        None => {
            let mut msg = String::from_str("unknown device id: ");
            msg.append(id);
            Err(msg)
        },
    }
}

/// What the sampler would produce for the given zones, shown by the user
/// interface during development without a real capture: a fixed purple.
pub fn preview_sample(zones: Vec<[u32; 4]>) -> (out: Vec<ColorZone>)
    ensures
        out@ == seq![ColorZone { r: 128, g: 64, b: 192 }],
{
    let mut out: Vec<ColorZone> = Vec::new();
    out.push(ColorZone { r: 128, g: 64, b: 192 });
    assert(out@ =~= seq![ColorZone { r: 128, g: 64, b: 192 }]);
    out
}

} // verus!
