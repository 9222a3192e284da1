//! Govee LAN module.
//!
//! Implements the local-area-network control protocol from the Govee LAN
//! Control Developer Guide: UDP multicast discovery on `239.255.255.250`
//! (send to port 4001, listen on port 4002) and per-device control on UDP
//! 4003. This module holds the values and decisions; the sockets live at
//! the edge of the program.
pub mod capabilities;
pub mod device;
pub mod diagnostics;
pub mod discovery;
pub mod protocol;

use vstd::prelude::*;

use crate::text::text_eq;
use capabilities::Capabilities;

verus! {

/// A single Govee device as we currently know it on the LAN.
///
/// The address is kept in its textual form (as produced by the socket
/// layer) and the time we last heard from the device as a monotonic
/// timestamp in nanoseconds, supplied by the caller.
#[derive(Debug)]
pub struct LanDevice {
    /// Govee's device id (unique per device).
    pub id: String,
    /// Human-friendly name from the Govee account (may be empty).
    pub friendly_name: String,
    /// Model SKU, e.g. "H6046".
    pub sku: String,
    /// Last IP address we observed the device at.
    pub ip: String,
    /// Monotonic time (nanoseconds) we last heard from the device.
    pub last_seen_ns: u64,
    /// Per-SKU capabilities from `Capabilities::for_sku`.
    pub capabilities: Capabilities,
    /// Current cached on/off (None = unknown).
    pub power: Option<bool>,
    /// Current cached brightness (0..=100). None = unknown.
    pub brightness: Option<u8>,
    /// Current cached RGB color. None = unknown.
    pub color: Option<[u8; 3]>,
}

impl Clone for LanDevice {
    fn clone(&self) -> (r: Self)
        ensures
            r == *self,
    {
        LanDevice {
            id: self.id.clone(),
            friendly_name: self.friendly_name.clone(),
            sku: self.sku.clone(),
            ip: self.ip.clone(),
            last_seen_ns: self.last_seen_ns,
            capabilities: self.capabilities.clone(),
            power: self.power,
            brightness: self.brightness,
            color: self.color,
        }
    }
}

impl LanDevice {
    /// The record made for a device that answered a discovery scan: its
    /// capabilities come from its SKU, nothing else is known yet.
    pub fn from_scan(device: String, sku: String, ip: String, seen_ns: u64) -> (d: LanDevice)
        ensures
            d.id@ == device@,
            d.friendly_name@ == Seq::<char>::empty(),
            d.sku@ == sku@,
            d.ip@ == ip@,
            d.last_seen_ns == seen_ns,
            capabilities::capabilities_for(d.capabilities, sku@),
            d.power is None,
            d.brightness is None,
            d.color is None,
    {
        let caps = Capabilities::for_sku(sku.as_str());
        LanDevice {
            id: device,
            friendly_name: String::new(),
            sku,
            ip,
            last_seen_ns: seen_ns,
            capabilities: caps,
            power: None,
            brightness: None,
            color: None,
        }
    }
}

/// A device is reported online when we heard from it less than a minute ago.
pub const ONLINE_WINDOW_MS: u64 = 60_000;

/// Whole milliseconds elapsed from `then_ns` to `now_ns`; zero when the
/// clock reading `now_ns` is not after `then_ns`.
pub open spec fn elapsed_ms(then_ns: u64, now_ns: u64) -> nat {
    if now_ns >= then_ns {
        ((now_ns - then_ns) / 1_000_000) as nat
    } else {
        0
    }
}

/// Wire-format view of a `LanDevice` for the JSON API, with the derived
/// `online` flag and the age of the last sighting.
#[derive(Debug, Clone)]
pub struct LanDeviceDto {
    pub id: String,
    pub friendly_name: String,
    pub sku: String,
    pub ip: String,
    pub capabilities: Capabilities,
    pub power: Option<bool>,
    pub brightness: Option<u8>,
    pub color: Option<[u8; 3]>,
    pub online: bool,
    pub last_seen_ms_ago: u64,
}

impl LanDeviceDto {
    /// Describe `d` as seen at monotonic time `now_ns`.
    pub fn from_device(d: &LanDevice, now_ns: u64) -> (r: LanDeviceDto)
        ensures
            r.id == d.id,
            r.friendly_name == d.friendly_name,
            r.sku == d.sku,
            r.ip == d.ip,
            r.capabilities == d.capabilities,
            r.power == d.power,
            r.brightness == d.brightness,
            r.color == d.color,
            r.last_seen_ms_ago == elapsed_ms(d.last_seen_ns, now_ns),
            r.online == (elapsed_ms(d.last_seen_ns, now_ns) < ONLINE_WINDOW_MS),
            now_ns >= d.last_seen_ns ==> r.last_seen_ms_ago == (now_ns - d.last_seen_ns)
                / 1_000_000,
            now_ns < d.last_seen_ns ==> r.last_seen_ms_ago == 0,
            r.online <==> r.last_seen_ms_ago < 60_000,
            now_ns >= d.last_seen_ns && now_ns - d.last_seen_ns >= 60_000_000_000 ==> !r.online,
    {
        let elapsed_ns: u64 = if now_ns >= d.last_seen_ns {
            now_ns - d.last_seen_ns
        } else {
            0
        };
        let last_seen_ms_ago = elapsed_ns / 1_000_000;
        LanDeviceDto {
            id: d.id.clone(),
            friendly_name: d.friendly_name.clone(),
            sku: d.sku.clone(),
            ip: d.ip.clone(),
            capabilities: d.capabilities.clone(),
            power: d.power,
            brightness: d.brightness,
            color: d.color,
            online: last_seen_ms_ago < ONLINE_WINDOW_MS,
            last_seen_ms_ago,
        }
    }
}

/// The age of a sighting is the whole number of milliseconds elapsed, with
/// no wrap-around: it grows with the clock reading, and a device silent for
/// a minute or more is reported offline.
pub proof fn law_age_counts_elapsed_ms(then_ns: u64, now1: u64, now2: u64)
    ensures
        now1 >= then_ns ==> elapsed_ms(then_ns, now1) == (now1 - then_ns) / 1_000_000,
        now1 >= then_ns ==> elapsed_ms(then_ns, now1) * 1_000_000 <= now1 - then_ns < (
        elapsed_ms(then_ns, now1) + 1) * 1_000_000,
        now1 < then_ns ==> elapsed_ms(then_ns, now1) == 0,
        now1 <= now2 ==> elapsed_ms(then_ns, now1) <= elapsed_ms(then_ns, now2),
        now1 >= then_ns && now1 - then_ns >= 60_000_000_000 ==> elapsed_ms(then_ns, now1)
            >= ONLINE_WINDOW_MS,
{
    if now1 >= then_ns {
        vstd::arithmetic::div_mod::lemma_fundamental_div_mod((now1 - then_ns) as int, 1_000_000);
    }
    if now1 <= now2 && now1 >= then_ns {
        vstd::arithmetic::div_mod::lemma_div_is_ordered(
            (now1 - then_ns) as int,
            (now2 - then_ns) as int,
            1_000_000,
        );
    }
    if now1 >= then_ns && now1 - then_ns >= 60_000_000_000 {
        vstd::arithmetic::div_mod::lemma_div_is_ordered(
            60_000_000_000,
            (now1 - then_ns) as int,
            1_000_000,
        );
    }
}

/// No two records in `s` share an id.
pub open spec fn ids_unique(s: Seq<LanDevice>) -> bool {
    forall|i: int, j: int| 0 <= i < j < s.len() ==> s[i].id@ != s[j].id@
}

/// The map from device id to record described by a sequence of records;
/// a later record replaces an earlier one with the same id.
pub open spec fn registry_map(s: Seq<LanDevice>) -> Map<Seq<char>, LanDevice>
    decreases s.len(),
{
    if s.len() == 0 {
        Map::empty()
    } else {
        registry_map(s.drop_last()).insert(s.last().id@, s.last())
    }
}

/// What a lookup of `id` in the map `m` gives back.
pub open spec fn registry_lookup(m: Map<Seq<char>, LanDevice>, id: Seq<char>) -> Option<LanDevice> {
    if m.contains_key(id) {
        Some(m[id])
    } else {
        None
    }
}

/// The records after inserting `d`: it replaces the record with the same
/// id in place, or is appended when there is none.
pub open spec fn entries_after_insert(s: Seq<LanDevice>, d: LanDevice) -> Seq<LanDevice> {
    if exists|i: int| 0 <= i < s.len() && s[i].id@ == d.id@ {
        let i = choose|i: int| 0 <= i < s.len() && s[i].id@ == d.id@;
        s.update(i, d)
    } else {
        s.push(d)
    }
}

proof fn lemma_map_domain(s: Seq<LanDevice>, k: Seq<char>)
    ensures
        registry_map(s).contains_key(k) <==> exists|i: int| 0 <= i < s.len() && s[i].id@ == k,
    decreases s.len(),
{
    if s.len() > 0 {
        lemma_map_domain(s.drop_last(), k);
        if registry_map(s.drop_last()).contains_key(k) {
            let i = choose|i: int| 0 <= i < s.drop_last().len() && s.drop_last()[i].id@ == k;
            assert(s[i].id@ == k);
        }
        if exists|i: int| 0 <= i < s.len() && s[i].id@ == k {
            let i = choose|i: int| 0 <= i < s.len() && s[i].id@ == k;
            if i < s.len() - 1 {
                assert(s.drop_last()[i].id@ == k);
            }
        }
    }
}

proof fn lemma_map_value(s: Seq<LanDevice>, i: int)
    requires
        ids_unique(s),
        0 <= i < s.len(),
    ensures
        registry_map(s).contains_key(s[i].id@),
        registry_map(s)[s[i].id@] == s[i],
    decreases s.len(),
{
    lemma_map_domain(s, s[i].id@);
    if i < s.len() - 1 {
        let t = s.drop_last();
        assert(ids_unique(t));
        lemma_map_value(t, i);
        assert(t[i] == s[i]);
        assert(s.last().id@ != s[i].id@);
    }
}

proof fn lemma_map_len(s: Seq<LanDevice>)
    requires
        ids_unique(s),
    ensures
        registry_map(s).dom().finite(),
        registry_map(s).dom().len() == s.len(),
    decreases s.len(),
{
    if s.len() > 0 {
        let t = s.drop_last();
        assert(ids_unique(t));
        lemma_map_len(t);
        lemma_map_domain(t, s.last().id@);
        if registry_map(t).contains_key(s.last().id@) {
            let i = choose|i: int| 0 <= i < t.len() && t[i].id@ == s.last().id@;
            assert(s[i].id@ == s[s.len() - 1].id@);
        }
        assert(registry_map(s).dom() =~= registry_map(t).dom().insert(s.last().id@));
    }
}

proof fn lemma_insert_entries(s: Seq<LanDevice>, d: LanDevice)
    requires
        ids_unique(s),
    ensures
        ids_unique(entries_after_insert(s, d)),
        registry_map(entries_after_insert(s, d)) == registry_map(s).insert(d.id@, d),
{
    let t = entries_after_insert(s, d);
    if exists|i: int| 0 <= i < s.len() && s[i].id@ == d.id@ {
        let p = choose|i: int| 0 <= i < s.len() && s[i].id@ == d.id@;
        assert(t == s.update(p, d));
        assert(ids_unique(t)) by {
            assert forall|i: int, j: int| 0 <= i < j < t.len() implies t[i].id@ != t[j].id@ by {
                if i == p {
                    assert(s[j].id@ != s[p].id@);
                } else if j == p {
                    assert(s[i].id@ != s[p].id@);
                } else {
                }
            }
        }
        let m1 = registry_map(t);
        let m2 = registry_map(s).insert(d.id@, d);
        assert forall|k: Seq<char>| m1.contains_key(k) <==> m2.contains_key(k) by {
            lemma_map_domain(t, k);
            lemma_map_domain(s, k);
            if exists|i: int| 0 <= i < s.len() && s[i].id@ == k {
                let i = choose|i: int| 0 <= i < s.len() && s[i].id@ == k;
                assert(t[i].id@ == k);
            }
            if exists|i: int| 0 <= i < t.len() && t[i].id@ == k {
                let i = choose|i: int| 0 <= i < t.len() && t[i].id@ == k;
                if i != p {
                    assert(s[i].id@ == k);
                }
            }
        }
        assert forall|k: Seq<char>| #[trigger] m1.contains_key(k) implies m1[k] == m2[k] by {
            lemma_map_domain(t, k);
            let i = choose|i: int| 0 <= i < t.len() && t[i].id@ == k;
            lemma_map_value(t, i);
            if i != p {
                lemma_map_value(s, i);
                assert(s[i] == t[i]);
            }
        }
        assert(m1 =~= m2);
    } else {
        assert(t == s.push(d));
        assert(t.drop_last() =~= s);
        assert forall|i: int, j: int| 0 <= i < j < t.len() implies t[i].id@ != t[j].id@ by {
            if j == s.len() {
                assert(t[i] == s[i]);
            } else {
                assert(t[i] == s[i] && t[j] == s[j]);
            }
        }
    }
}

/// The devices found on the LAN, keyed by device id.
///
/// Records are kept in the order their ids were first seen; an id occurs at
/// most once.
pub struct DeviceRegistry {
    devices: Vec<LanDevice>,
}

impl DeviceRegistry {
    #[verifier::type_invariant]
    spec fn well_formed(self) -> bool {
        ids_unique(self.devices@)
    }

    /// The records, in the order their ids were first recorded.
    pub closed spec fn entries(self) -> Seq<LanDevice> {
        self.devices@
    }
}

impl View for DeviceRegistry {
    type V = Map<Seq<char>, LanDevice>;

    /// The registry as a map from device id to record.
    open spec fn view(&self) -> Map<Seq<char>, LanDevice> {
        registry_map(self.entries())
    }
}

impl Default for DeviceRegistry {
    fn default() -> (r: Self)
        ensures
            r.entries() == Seq::<LanDevice>::empty(),
            r@ == Map::<Seq<char>, LanDevice>::empty(),
    {
        DeviceRegistry::new()
    }
}

impl DeviceRegistry {
    /// An empty registry.
    pub fn new() -> (r: Self)
        ensures
            r.entries() == Seq::<LanDevice>::empty(),
            r@ == Map::<Seq<char>, LanDevice>::empty(),
    {
        DeviceRegistry { devices: Vec::new() }
    }

    /// Number of devices known, one per distinct id.
    pub fn len(&self) -> (n: usize)
        ensures
            n == self.entries().len(),
            n == self@.dom().len(),
    {
        proof {
            use_type_invariant(self);
            lemma_map_len(self.devices@);
        }
        self.devices.len()
    }

    /// All records, in the order their ids were first recorded.
    pub fn devices(&self) -> (v: &Vec<LanDevice>)
        ensures
            v@ == self.entries(),
    {
        &self.devices
    }

    /// Position of the record with id `id`, if any.
    fn position_of(&self, id: &str) -> (p: Option<usize>)
        ensures
            match p {
                Some(i) => i < self.entries().len() && self.entries()[i as int].id@ == id@,
                None => forall|i: int|
                    0 <= i < self.entries().len() ==> self.entries()[i].id@ != id@,
            },
    {
        let n = self.devices.len();
        let mut i: usize = 0;
        while i < n
            invariant
                n == self.devices@.len(),
                i <= n,
                forall|j: int| 0 <= j < i ==> self.devices@[j].id@ != id@,
            decreases n - i,
        {
            if text_eq(self.devices[i].id.as_str(), id) {
                return Some(i);
            }
            i = i + 1;
        }
        None
    }

    /// The record for `id`, if one is known.
    pub fn get(&self, id: &str) -> (r: Option<&LanDevice>)
        ensures
            match r {
                Some(d) => registry_lookup(self@, id@) == Some(*d),
                None => registry_lookup(self@, id@) is None,
            },
    {
        proof {
            use_type_invariant(self);
            lemma_map_domain(self.devices@, id@);
        }
        match self.position_of(id) {
            Some(i) => {
                proof {
                    lemma_map_value(self.devices@, i as int);
                }
                Some(&self.devices[i])
            },
            None => None,
        }
    }

    /// Record `dev` under its id, replacing (and returning) any record
    /// that had the same id.
    pub fn insert(&mut self, dev: LanDevice) -> (old_dev: Option<LanDevice>)
        ensures
            final(self)@ == old(self)@.insert(dev.id@, dev),
            final(self).entries() == entries_after_insert(old(self).entries(), dev),
            old_dev == registry_lookup(old(self)@, dev.id@),
    {
        proof {
            use_type_invariant(&*self);
            lemma_map_domain(self.devices@, dev.id@);
            lemma_insert_entries(self.devices@, dev);
        }
        let ghost before = self.devices@;
        let found = self.position_of(dev.id.as_str());
        let mut records: Vec<LanDevice> = Vec::new();
        std::mem::swap(&mut records, &mut self.devices);
        let replaced = match found {
            Some(i) => {
                proof {
                    lemma_map_value(before, i as int);
                    let p = choose|k: int| 0 <= k < before.len() && before[k].id@ == dev.id@;
                    assert(before[p].id@ == before[i as int].id@);
                    assert(p == i);
                }
                let mut slot = dev;
                records.set_and_swap(i, &mut slot);
                Some(slot)
            },
            None => {
                records.push(dev);
                None
            },
        };
        self.devices = records;
        replaced
    }
}

/// Reading back a record just written gives that record, and writing a
/// record leaves the records of every other id as they were.
pub proof fn law_read_after_insert(
    before: Map<Seq<char>, LanDevice>,
    dev: LanDevice,
    other: Seq<char>,
)
    requires
        other != dev.id@,
    ensures
        registry_lookup(before.insert(dev.id@, dev), dev.id@) == Some(dev),
        registry_lookup(before.insert(dev.id@, dev), other) == registry_lookup(before, other),
{
}

/// Inserting a record whose id is already known replaces that record and
/// keeps the number of devices; a new id adds exactly one device.
pub proof fn law_insert_counts_ids(before: Map<Seq<char>, LanDevice>, dev: LanDevice)
    requires
        before.dom().finite(),
    ensures
        before.insert(dev.id@, dev).dom().len() == before.dom().len() + (if before.contains_key(
            dev.id@,
        ) {
            0int
        } else {
            1int
        }),
{
}

} // verus!
