//! The registry of devices: sightings are reconciled by MAC address into
//! records with small ids that are handed out once and never again.

use crate::device_info::BluetoothDevice;
use crate::text::{contains_substring, has_substring, same_text};
use std::collections::HashMap;
use vstd::prelude::*;

verus! {

broadcast use vstd::std_specs::hash::group_hash_axioms;

/// The registry as a mathematical value: the records by id, and the id that
/// the next new device gets.
pub struct Registry<H> {
    pub records: Map<u32, BluetoothDevice<H>>,
    pub next_id: u32,
}

impl<H> Registry<H> {
    /// The registry that has seen nothing: its first id will be 1.
    pub open spec fn empty() -> Registry<H> {
        Registry { records: Map::empty(), next_id: 1 }
    }

    /// The record of `id` is that of the device with this MAC address.
    pub open spec fn holds(self, id: u32, mac: Seq<char>) -> bool {
        self.records.contains_key(id) && self.records[id].mac_address@ == mac
    }

    /// A device with this MAC address has a record.
    pub open spec fn knows(self, mac: Seq<char>) -> bool {
        exists|id: u32| self.holds(id, mac)
    }

    /// The id of the device with this MAC address.
    pub open spec fn id_of(self, mac: Seq<char>) -> u32 {
        choose|id: u32| self.holds(id, mac)
    }

    /// The ids in use are exactly those from 1 up to `next_id`, and no two
    /// records have the same MAC address.
    pub open spec fn wf(self) -> bool {
        &&& self.next_id >= 1
        &&& forall|id: u32| self.records.contains_key(id) <==> 1 <= id < self.next_id
        &&& forall|a: u32, b: u32|
            self.records.contains_key(a) && self.records.contains_key(b)
                && self.records[a].mac_address@ == self.records[b].mac_address@ ==> a == b
    }

    /// Another new device can still be given an id.
    pub open spec fn has_room(self) -> bool {
        self.next_id < u32::MAX
    }

    /// The id under which a sighting with this MAC address is filed: that of
    /// the record it matches, or else the next unused id.
    pub open spec fn assigned(self, mac: Seq<char>) -> u32 {
        if self.knows(mac) {
            self.id_of(mac)
        } else {
            self.next_id
        }
    }

    /// The registry after a sighting: the record of a known MAC address is
    /// replaced under its id, a new MAC address gets the next id.
    pub open spec fn add_or_update(self, device: BluetoothDevice<H>) -> Registry<H> {
        let id = self.assigned(device.mac_address@);
        Registry {
            records: self.records.insert(id, device),
            next_id: if self.knows(device.mac_address@) {
                self.next_id
            } else {
                (self.next_id + 1) as u32
            },
        }
    }

    /// The registry after the sightings `devices`, taken in order.
    pub open spec fn ingest(self, devices: Seq<BluetoothDevice<H>>) -> Registry<H>
        decreases devices.len(),
    {
        if devices.len() == 0 {
            self
        } else {
            self.ingest(devices.drop_last()).add_or_update(devices.last())
        }
    }

    /// The id that sighting number `i` of `devices` is filed under.
    pub open spec fn returned(self, devices: Seq<BluetoothDevice<H>>, i: int) -> u32 {
        self.ingest(devices.take(i)).assigned(devices[i].mac_address@)
    }

    /// Sighting number `i` of `devices` is of a device not seen before it.
    pub open spec fn is_new(self, devices: Seq<BluetoothDevice<H>>, i: int) -> bool {
        !self.ingest(devices.take(i)).knows(devices[i].mac_address@)
    }

    /// The ids of the records with exactly this name.
    pub open spec fn named(self, name: Seq<char>) -> Set<u32> {
        Set::new(|id: u32| self.records.contains_key(id) && self.records[id].name@ == name)
    }
}

/// A sighting keeps the registry well formed, and files the device under
/// the id that `assigned` names.
pub proof fn lemma_add_or_update<H>(registry: Registry<H>, device: BluetoothDevice<H>)
    requires
        registry.wf(),
        registry.knows(device.mac_address@) || registry.has_room(),
    ensures
        registry.add_or_update(device).wf(),
        registry.add_or_update(device).holds(
            registry.assigned(device.mac_address@),
            device.mac_address@,
        ),
        registry.add_or_update(device).records[registry.assigned(device.mac_address@)] == device,
        registry.add_or_update(device).next_id >= registry.next_id,
        forall|id: u32|
            registry.records.contains_key(id) ==> #[trigger] registry.add_or_update(
                device,
            ).records.contains_key(id),
        forall|id: u32|
            registry.records.contains_key(id) && id != registry.assigned(device.mac_address@)
                ==> #[trigger] registry.add_or_update(device).records[id] == registry.records[id],
{
    let mac = device.mac_address@;
    let after = registry.add_or_update(device);
    let id = registry.assigned(mac);
    if registry.knows(mac) {
        assert(registry.holds(id, mac));
        assert forall|a: u32, b: u32|
            after.records.contains_key(a) && after.records.contains_key(b)
                && after.records[a].mac_address@ == after.records[b].mac_address@ implies a
            == b by {
            if a == id && b != id {
                assert(registry.records[b].mac_address@ == registry.records[id].mac_address@);
            }
            if b == id && a != id {
                assert(registry.records[a].mac_address@ == registry.records[id].mac_address@);
            }
        }
    } else {
        assert forall|a: u32, b: u32|
            after.records.contains_key(a) && after.records.contains_key(b)
                && after.records[a].mac_address@ == after.records[b].mac_address@ implies a
            == b by {
            if a == id && b != id {
                assert(registry.holds(b, mac));
            }
            if b == id && a != id {
                assert(registry.holds(a, mac));
            }
        }
    }
}

/// The registry of devices.
pub struct DeviceStorage<H> {
    devices: HashMap<u32, BluetoothDevice<H>>,
    next_id: u32,
}

impl<H> View for DeviceStorage<H> {
    type V = Registry<H>;

    closed spec fn view(&self) -> Registry<H> {
        Registry { records: self.devices@, next_id: self.next_id }
    }
}

/// `list` holds, in ascending order of id, exactly the records of `registry`
/// that `keep` selects.
pub open spec fn lists<H>(
    list: Seq<(u32, &BluetoothDevice<H>)>,
    registry: Registry<H>,
    keep: spec_fn(BluetoothDevice<H>) -> bool,
) -> bool {
    &&& forall|i: int|
        0 <= i < list.len() ==> {
            &&& registry.records.contains_key(#[trigger] list[i].0)
            &&& *list[i].1 == registry.records[list[i].0]
            &&& keep(registry.records[list[i].0])
        }
    &&& forall|i: int, j: int| 0 <= i < j < list.len() ==> list[i].0 < list[j].0
    &&& forall|id: u32|
        registry.records.contains_key(id) && keep(#[trigger] registry.records[id]) ==> exists|
            i: int,
        |
            0 <= i < list.len() && list[i].0 == id
}

impl<H> DeviceStorage<H> {
    /// Every registry is well formed, at all times.
    #[verifier::type_invariant]
    pub open spec fn well_formed(self) -> bool {
        self@.wf()
    }

    /// An empty registry.
    pub fn new() -> (storage: Self)
        ensures
            storage@ == Registry::<H>::empty(),
            storage@.wf(),
    {
        DeviceStorage { devices: HashMap::new(), next_id: 1 }
    }

    /// The id that the next new device gets.
    pub fn next_id(&self) -> (id: u32)
        ensures
            id == self@.next_id,
    {
        self.next_id
    }

    /// Whether another new device can still be given an id.
    pub fn has_room(&self) -> (r: bool)
        ensures
            r == self@.has_room(),
    {
        self.next_id < u32::MAX
    }

    /// The number of records.
    pub fn len(&self) -> (n: usize)
        ensures
            n == self@.next_id - 1,
            n == self@.records.len(),
    {
        proof {
            use_type_invariant(self);
            lemma_record_count(self@);
        }
        self.devices.len()
    }

    /// The id of the device with this MAC address, if it has a record.
    pub fn find_by_mac(&self, mac: &str) -> (r: Option<u32>)
        ensures
            match r {
                Some(id) => self@.holds(id, mac@),
                None => !self@.knows(mac@),
            },
            r == if self@.knows(mac@) {
                Some(self@.id_of(mac@))
            } else {
                None
            },
    {
        proof {
            use_type_invariant(self);
        }
        let mut id: u32 = 1;
        while id < self.next_id
            invariant
                1 <= id <= self.next_id,
                self@.wf(),
                forall|k: u32| 1 <= k < id ==> !self@.holds(k, mac@),
            decreases self.next_id - id,
        {
            match self.devices.get(&id) {
                Some(device) => {
                    if same_text(device.mac_address.as_str(), mac) {
                        assert(self@.holds(id, mac@));
                        return Some(id);
                    }
                },
                None => {},
            }
            id = id + 1;
        }
        None
    }

    /// Files a sighting: a device whose MAC address has a record keeps its
    /// id and gets the name, signal strength and handle of the sighting; a
    /// device seen for the first time gets the next unused id. Returns the id.
    pub fn add_or_update_device(&mut self, device: BluetoothDevice<H>) -> (id: u32)
        requires
            old(self)@.knows(device.mac_address@) || old(self)@.has_room(),
        ensures
            final(self)@ == old(self)@.add_or_update(device),
            old(self)@.wf(),
            final(self)@.wf(),
            id == old(self)@.assigned(device.mac_address@),
            final(self)@.records.contains_key(id),
            final(self)@.records[id] == device,
            !old(self)@.knows(device.mac_address@) ==> id == old(self)@.next_id
                && !old(self)@.records.contains_key(id) && final(self)@.next_id == id + 1,
            old(self)@.knows(device.mac_address@) ==> old(self)@.holds(id, device.mac_address@)
                && final(self)@.next_id == old(self)@.next_id,
    {
        proof {
            use_type_invariant(&*self);
            lemma_add_or_update(self@, device);
        }
        let found = self.find_by_mac(device.mac_address.as_str());
        let mut taken = DeviceStorage::new();
        std::mem::swap(self, &mut taken);
        let DeviceStorage { mut devices, next_id } = taken;
        match found {
            Some(id) => {
                devices.insert(id, device);
                *self = DeviceStorage { devices, next_id };
                id
            },
            None => {
                devices.insert(next_id, device);
                *self = DeviceStorage { devices, next_id: next_id + 1 };
                next_id
            },
        }
    }

    /// The record of `id`, if there is one.
    pub fn get_device(&self, id: u32) -> (device: Option<&BluetoothDevice<H>>)
        ensures
            match device {
                Some(d) => self@.records.contains_key(id) && *d == self@.records[id],
                None => !self@.records.contains_key(id),
            },
    {
        self.devices.get(&id)
    }

    /// Every record with its id, in ascending order of id.
    pub fn list_devices(&self) -> (list: Vec<(u32, &BluetoothDevice<H>)>)
        ensures
            lists(list@, self@, |d: BluetoothDevice<H>| true),
            list@.len() == self@.next_id - 1,
            forall|i: int| 0 <= i < list@.len() ==> #[trigger] list@[i].0 == i + 1,
    {
        proof {
            use_type_invariant(self);
        }
        let mut list: Vec<(u32, &BluetoothDevice<H>)> = Vec::new();
        let mut id: u32 = 1;
        while id < self.next_id
            invariant
                1 <= id <= self.next_id,
                self@.wf(),
                list@.len() == id - 1,
                forall|i: int|
                    0 <= i < list@.len() ==> #[trigger] list@[i].0 == i + 1 && *list@[i].1
                        == self@.records[list@[i].0],
            decreases self.next_id - id,
        {
            match self.devices.get(&id) {
                Some(device) => {
                    list.push((id, device));
                },
                None => {
                    assert(false);
                },
            }
            id = id + 1;
        }
        assert forall|k: u32|
            self@.records.contains_key(k) implies exists|i: int|
            0 <= i < list@.len() && list@[i].0 == k by {
            assert(list@[k - 1].0 == k);
        }
        list
    }

    /// The records whose name holds `pattern`, letter for letter, each with
    /// its id, in ascending order of id.
    pub fn list_by_name_substring(&self, pattern: &str) -> (list: Vec<(u32, &BluetoothDevice<H>)>)
        ensures
            lists(list@, self@, |d: BluetoothDevice<H>| has_substring(d.name@, pattern@)),
    {
        proof {
            use_type_invariant(self);
        }
        let ghost keep = |d: BluetoothDevice<H>| has_substring(d.name@, pattern@);
        let mut list: Vec<(u32, &BluetoothDevice<H>)> = Vec::new();
        let mut id: u32 = 1;
        while id < self.next_id
            invariant
                1 <= id <= self.next_id,
                self@.wf(),
                keep == |d: BluetoothDevice<H>| has_substring(d.name@, pattern@),
                forall|i: int|
                    0 <= i < list@.len() ==> {
                        &&& 1 <= (#[trigger] list@[i].0) < id
                        &&& *list@[i].1 == self@.records[list@[i].0]
                        &&& keep(self@.records[list@[i].0])
                    },
                forall|i: int, j: int| 0 <= i < j < list@.len() ==> list@[i].0 < list@[j].0,
                forall|k: u32|
                    1 <= k < id && keep(#[trigger] self@.records[k]) ==> exists|i: int|
                        0 <= i < list@.len() && list@[i].0 == k,
            decreases self.next_id - id,
        {
            match self.devices.get(&id) {
                Some(device) => {
                    if contains_substring(device.name.as_str(), pattern) {
                        let ghost before = list@;
                        list.push((id, device));
                        assert(list@[before.len() as int].0 == id);
                        assert forall|k: u32|
                            1 <= k < id + 1 && keep(#[trigger] self@.records[k]) implies exists|
                            i: int,
                        |
                            0 <= i < list@.len() && list@[i].0 == k by {
                            if k < id {
                                let i = choose|i: int| 0 <= i < before.len() && before[i].0 == k;
                                assert(list@[i].0 == k);
                            }
                        }
                    }
                },
                None => {
                    assert(false);
                },
            }
            id = id + 1;
        }
        list
    }

    /// The records of MJ_HT_V1 sensors: those whose name holds `MJ_HT_V1`.
    pub fn list_mj_ht_v1_devices(&self) -> (list: Vec<(u32, &BluetoothDevice<H>)>)
        ensures
            lists(list@, self@, |d: BluetoothDevice<H>| has_substring(d.name@, "MJ_HT_V1"@)),
    {
        self.list_by_name_substring("MJ_HT_V1")
    }

    /// The number of records with exactly this name.
    pub fn count_devices_by_name(&self, name: &str) -> (count: usize)
        ensures
            count == self@.named(name@).len(),
            self@.named(name@).finite(),
    {
        proof {
            use_type_invariant(self);
        }
        let mut count: usize = 0;
        let mut id: u32 = 1;
        assert(named_below(self@, name@, 1) =~= Set::<u32>::empty());
        while id < self.next_id
            invariant
                1 <= id <= self.next_id,
                self@.wf(),
                count < id,
                named_below(self@, name@, id).finite(),
                count == named_below(self@, name@, id).len(),
            decreases self.next_id - id,
        {
            let ghost seen = named_below(self@, name@, id);
            match self.devices.get(&id) {
                Some(device) => {
                    if same_text(device.name.as_str(), name) {
                        assert(named_below(self@, name@, (id + 1) as u32) =~= seen.insert(id));
                        count = count + 1;
                    } else {
                        assert(named_below(self@, name@, (id + 1) as u32) =~= seen);
                    }
                },
                None => {
                    assert(false);
                },
            }
            id = id + 1;
        }
        assert(named_below(self@, name@, id) =~= self@.named(name@));
        count
    }
}

/// The ids below `bound` whose records have exactly this name.
pub open spec fn named_below<H>(registry: Registry<H>, name: Seq<char>, bound: u32) -> Set<u32> {
    Set::new(
        |id: u32|
            id < bound && registry.records.contains_key(id) && registry.records[id].name@ == name,
    )
}

/// A well-formed registry holds `next_id - 1` records.
pub proof fn lemma_record_count<H>(registry: Registry<H>)
    requires
        registry.wf(),
    ensures
        registry.records.dom().finite(),
        registry.records.len() == registry.next_id - 1,
{
    lemma_range_len(registry.next_id);
    assert(registry.records.dom() =~= Set::new(|id: u32| 1 <= id < registry.next_id));
}

/// There are `bound - 1` ids from 1 up to `bound`.
pub proof fn lemma_range_len(bound: u32)
    requires
        bound >= 1,
    ensures
        Set::new(|id: u32| 1 <= id < bound).finite(),
        Set::new(|id: u32| 1 <= id < bound).len() == bound - 1,
    decreases bound,
{
    if bound == 1 {
        assert(Set::new(|id: u32| 1 <= id < bound) =~= Set::<u32>::empty());
    } else {
        let below = (bound - 1) as u32;
        lemma_range_len(below);
        assert(Set::new(|id: u32| 1 <= id < bound) =~= Set::new(|id: u32| 1 <= id < below).insert(
            below,
        ));
    }
}

/// A run of sightings keeps the registry well formed, and hands out at most
/// one id for each sighting.
pub proof fn lemma_ingest<H>(registry: Registry<H>, devices: Seq<BluetoothDevice<H>>)
    requires
        registry.wf(),
        registry.next_id + devices.len() <= u32::MAX,
    ensures
        registry.ingest(devices).wf(),
        registry.next_id <= registry.ingest(devices).next_id <= registry.next_id + devices.len(),
    decreases devices.len(),
{
    if devices.len() > 0 {
        lemma_ingest(registry, devices.drop_last());
        lemma_add_or_update(registry.ingest(devices.drop_last()), devices.last());
    }
}

/// The id that the next new device gets never goes down as sightings come in.
pub proof fn lemma_next_id_never_decreases<H>(
    registry: Registry<H>,
    devices: Seq<BluetoothDevice<H>>,
    earlier: int,
    later: int,
)
    requires
        registry.wf(),
        registry.next_id + devices.len() <= u32::MAX,
        0 <= earlier <= later <= devices.len(),
    ensures
        registry.ingest(devices.take(earlier)).next_id <= registry.ingest(
            devices.take(later),
        ).next_id,
    decreases later - earlier,
{
    if earlier < later {
        lemma_next_id_never_decreases(registry, devices, earlier, later - 1);
        assert(devices.take(later).drop_last() =~= devices.take(later - 1));
        lemma_ingest(registry, devices.take(later - 1));
        lemma_add_or_update(registry.ingest(devices.take(later - 1)), devices[later - 1]);
    }
}

/// Dedup invariant. After any run of sightings that share one MAC address,
/// the registry holds exactly one record with that address; its id is the
/// one that the first sighting of the run was filed under, and every
/// sighting of the run was filed under it. The record is that of the last
/// sighting, and no record of another id was added.
pub proof fn lemma_dedup<H>(registry: Registry<H>, devices: Seq<BluetoothDevice<H>>)
    requires
        registry.wf(),
        devices.len() > 0,
        forall|i: int|
            0 <= i < devices.len() ==> (#[trigger] devices[i]).mac_address@
                == devices[0].mac_address@,
        registry.knows(devices[0].mac_address@) || registry.has_room(),
    ensures
        ({
            let mac = devices[0].mac_address@;
            let first = registry.returned(devices, 0);
            let after = registry.ingest(devices);
            &&& after.wf()
            &&& after.holds(first, mac)
            &&& forall|id: u32| after.holds(id, mac) ==> id == first
            &&& forall|i: int| 0 <= i < devices.len() ==> registry.returned(devices, i) == first
            &&& after.records[first] == devices.last()
            &&& after.records.dom() == registry.records.dom().insert(first)
        }),
    decreases devices.len(),
{
    let mac = devices[0].mac_address@;
    let first = registry.returned(devices, 0);
    let after = registry.ingest(devices);
    let head = devices.drop_last();
    let before = registry.ingest(head);
    assert(devices.take(0) =~= Seq::<BluetoothDevice<H>>::empty());
    assert(first == registry.assigned(mac));
    if devices.len() == 1 {
        assert(head =~= Seq::<BluetoothDevice<H>>::empty());
        assert(before == registry);
    } else {
        assert(head.take(0) =~= devices.take(0));
        assert(head[0] == devices[0]);
        lemma_dedup(registry, head);
        assert(before.holds(first, mac));
        assert forall|i: int| 0 <= i < devices.len() - 1 implies registry.returned(devices, i)
            == first by {
            assert(devices.take(i) =~= head.take(i));
            assert(registry.returned(head, i) == first);
        }
    }
    assert(devices.last().mac_address@ == mac);
    lemma_add_or_update(before, devices.last());
    assert(before.assigned(mac) == first) by {
        if before.knows(mac) {
            assert(before.holds(before.id_of(mac), mac));
        }
    }
    assert(devices.take(devices.len() - 1) =~= head);
    assert(after.records.dom() =~= registry.records.dom().insert(first));
    assert forall|id: u32| after.holds(id, mac) implies id == first by {
        assert(after.holds(first, mac));
    }
}

/// Dedup invariant, from an empty registry: after any run of sightings that
/// share one MAC address the registry holds exactly one record, under id 1.
pub proof fn lemma_dedup_from_empty<H>(devices: Seq<BluetoothDevice<H>>)
    requires
        devices.len() > 0,
        forall|i: int|
            0 <= i < devices.len() ==> (#[trigger] devices[i]).mac_address@
                == devices[0].mac_address@,
    ensures
        Registry::<H>::empty().ingest(devices).records.dom() == set![1u32],
        Registry::<H>::empty().ingest(devices).records.len() == 1,
        Registry::<H>::empty().ingest(devices).records[1] == devices.last(),
        forall|i: int|
            0 <= i < devices.len() ==> Registry::<H>::empty().returned(devices, i) == 1,
{
    let empty = Registry::<H>::empty();
    assert(devices.take(0) =~= Seq::<BluetoothDevice<H>>::empty());
    assert(!empty.knows(devices[0].mac_address@));
    lemma_dedup(empty, devices);
    assert(empty.records.dom().insert(1u32) =~= set![1u32]);
}

/// ID monotonicity. Of two sightings that each bring a device not seen
/// before, the later one gets the larger id.
pub proof fn lemma_new_ids_increase<H>(
    registry: Registry<H>,
    devices: Seq<BluetoothDevice<H>>,
    earlier: int,
    later: int,
)
    requires
        registry.wf(),
        registry.next_id + devices.len() <= u32::MAX,
        0 <= earlier < later < devices.len(),
        registry.is_new(devices, earlier),
        registry.is_new(devices, later),
    ensures
        registry.returned(devices, earlier) < registry.returned(devices, later),
{
    lemma_ids_never_reused(registry, devices, earlier, later);
}

/// Ids are never reused. A device not seen before gets an id that is larger
/// than every id handed out for an earlier sighting, and that no record of
/// the registry had to begin with.
pub proof fn lemma_ids_never_reused<H>(
    registry: Registry<H>,
    devices: Seq<BluetoothDevice<H>>,
    earlier: int,
    later: int,
)
    requires
        registry.wf(),
        registry.next_id + devices.len() <= u32::MAX,
        0 <= earlier < later < devices.len(),
        registry.is_new(devices, later),
    ensures
        registry.returned(devices, earlier) < registry.returned(devices, later),
        !registry.records.contains_key(registry.returned(devices, later)),
{
    let at_earlier = registry.ingest(devices.take(earlier));
    let past_earlier = registry.ingest(devices.take(earlier + 1));
    lemma_ingest(registry, devices.take(earlier));
    assert(devices.take(earlier + 1).drop_last() =~= devices.take(earlier));
    assert(past_earlier == at_earlier.add_or_update(devices[earlier]));
    lemma_add_or_update(at_earlier, devices[earlier]);
    lemma_ingest(registry, devices.take(earlier + 1));
    assert(past_earlier.records.contains_key(registry.returned(devices, earlier)));
    lemma_next_id_never_decreases(registry, devices, earlier + 1, later);
    lemma_next_id_never_decreases(registry, devices, 0, later);
    assert(devices.take(0) =~= Seq::<BluetoothDevice<H>>::empty());
}

} // verus!
