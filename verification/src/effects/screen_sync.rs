//! ScreenSync effect: which device gets which screen zone.
use vstd::prelude::*;

use super::{ColorZone, Effect};
use crate::capture::sampler::Rect;

verus! {

/// Maps a device to one screen zone. `zone_index` selects into the zone
/// colors produced by the sampler.
#[derive(Debug, Clone)]
pub struct ZoneMapping {
    pub device_id: String,
    pub zone_index: usize,
}

/// The current zone mapping for the screen-sync effect.
pub struct ScreenSyncState {
    pub mappings: Vec<ZoneMapping>,
    pub zones: Vec<Rect>,
}

impl Default for ScreenSyncState {
    fn default() -> (s: Self)
        ensures
            s.mappings@ == Seq::<ZoneMapping>::empty(),
            s.zones@ == Seq::<Rect>::empty(),
    {
        ScreenSyncState { mappings: Vec::new(), zones: Vec::new() }
    }
}

/// Whether `effect` is the screen-sync effect.
pub fn is_screen_sync(effect: &Effect) -> (b: bool)
    ensures
        b == (*effect is ScreenSync),
{
    match effect {
        Effect::ScreenSync => true,
        _ => false,
    }
}

/// The (device id, zone color) pairs for the mappings in `maps`, in order;
/// a mapping whose zone index is out of range is skipped.
pub open spec fn applied(zones: Seq<ColorZone>, maps: Seq<ZoneMapping>) -> Seq<(Seq<char>, ColorZone)>
    decreases maps.len(),
{
    if maps.len() == 0 {
        Seq::empty()
    } else {
        let m = maps.last();
        applied(zones, maps.drop_last()) + if m.zone_index < zones.len() {
            seq![(m.device_id@, zones[m.zone_index as int])]
        } else {
            Seq::empty()
        }
    }
}

/// The text-and-color view of an output pair.
pub open spec fn pair_view(p: (String, ColorZone)) -> (Seq<char>, ColorZone) {
    (p.0@, p.1)
}

/// Give each mapped device the color of its zone; mappings that point past
/// the last zone are skipped.
pub fn apply(zones: &[ColorZone], mappings: &[ZoneMapping]) -> (out: Vec<(String, ColorZone)>)
    ensures
        out@.map_values(|p: (String, ColorZone)| pair_view(p)) == applied(zones@, mappings@),
{
    let mut out: Vec<(String, ColorZone)> = Vec::new();
    let n = mappings.len();
    let mut i: usize = 0;
    assert(mappings@.take(0) =~= Seq::<ZoneMapping>::empty());
    while i < n
        invariant
            n == mappings@.len(),
            i <= n,
            out@.map_values(|p: (String, ColorZone)| pair_view(p)) == applied(
                zones@,
                mappings@.take(i as int),
            ),
        decreases n - i,
    {
        let m = &mappings[i];
        assert(mappings@.take(i + 1).drop_last() =~= mappings@.take(i as int));
        assert(mappings@.take(i + 1).last() == mappings@[i as int]);
        if m.zone_index < zones.len() {
            let z = zones[m.zone_index];
            out.push((m.device_id.clone(), z));
        }
        assert(out@.map_values(|p: (String, ColorZone)| pair_view(p)) =~= applied(
            zones@,
            mappings@.take(i + 1),
        ));
        i = i + 1;
    }
    assert(mappings@.take(n as int) =~= mappings@);
    out
}

/// Applying mappings never yields more pairs than there are mappings, and
/// yields exactly one per mapping when every zone index is in range.
pub proof fn law_apply_bounded(zones: Seq<ColorZone>, maps: Seq<ZoneMapping>)
    ensures
        applied(zones, maps).len() <= maps.len(),
        (forall|i: int| 0 <= i < maps.len() ==> #[trigger] maps[i].zone_index < zones.len())
            ==> applied(zones, maps).len() == maps.len(),
    decreases maps.len(),
{
    if maps.len() > 0 {
        law_apply_bounded(zones, maps.drop_last());
        if forall|i: int| 0 <= i < maps.len() ==> #[trigger] maps[i].zone_index < zones.len() {
            assert forall|i: int| 0 <= i < maps.drop_last().len() implies #[trigger] maps.drop_last()[i].zone_index < zones.len() by {
                assert(maps.drop_last()[i] == maps[i]);
            }
            assert(maps[maps.len() - 1].zone_index < zones.len());
        }
    }
}

/// When every mapping points at an existing zone, the i-th output pair is
/// the i-th mapping's device with the color of the zone it points at.
pub proof fn law_apply_pairs_devices_with_their_zones(zones: Seq<ColorZone>, maps: Seq<ZoneMapping>)
    requires
        forall|i: int| 0 <= i < maps.len() ==> #[trigger] maps[i].zone_index < zones.len(),
    ensures
        applied(zones, maps).len() == maps.len(),
        forall|i: int|
            0 <= i < maps.len() ==> #[trigger] applied(zones, maps)[i] == (
                maps[i].device_id@,
                zones[maps[i].zone_index as int],
            ),
    decreases maps.len(),
{
    if maps.len() > 0 {
        let t = maps.drop_last();
        assert forall|i: int| 0 <= i < t.len() implies #[trigger] t[i].zone_index < zones.len() by {
            assert(t[i] == maps[i]);
        }
        law_apply_pairs_devices_with_their_zones(zones, t);
        assert(maps[maps.len() - 1].zone_index < zones.len());
        assert forall|i: int| 0 <= i < maps.len() implies #[trigger] applied(zones, maps)[i] == (
            maps[i].device_id@,
            zones[maps[i].zone_index as int],
        ) by {
            if i < maps.len() - 1 {
                assert(t[i] == maps[i]);
                assert(applied(zones, maps)[i] == applied(zones, t)[i]);
            }
        }
    }
}

} // verus!
