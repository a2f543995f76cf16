//! The caller-facing surface: scan results are filed in the registry, and
//! session operations are begun for a device given by its id.

use crate::device_info::{
    is_read_of,
    is_sensor_pass,
    is_sensor_subscription,
    BluetoothDevice,
    UNKNOWN_DEVICE,
};
use crate::device_storage::{lemma_ingest, DeviceStorage, Registry};
use crate::gatt::ServiceTree;
use crate::notify::FieldValues;
use crate::passes::{
    ListInfoOp,
    PassError,
    ReadInfoOp,
    RetrieveInfoOp,
    SensorError,
    SensorPass,
    SubscribePass,
};
use crate::radio::Step;
use crate::retry::RetryPolicy;
use crate::session::{
    ConnectOp,
    ConnectionError,
    DisconnectOp,
    DiscoverOp,
    DiscoveryError,
    ReadError,
    ReadOp,
};
use crate::text::same_text;
use vstd::prelude::*;

verus! {

/// Advertised name of the MJ_HT_V1 sensor.
pub const MJ_HT_V1: &'static str = "MJ_HT_V1";

/// What an advertisement said of a peripheral; either part may be absent.
#[derive(Clone, Debug, PartialEq, Eq)]
pub struct Advertisement {
    pub local_name: Option<String>,
    pub rssi: Option<i16>,
}

/// Why an operation could not be begun.
#[derive(Clone, Copy, Debug, PartialEq, Eq, Structural)]
pub enum ManagerError {
    /// The registry has no record of that id.
    DeviceNotFound { device_id: u32 },
}

/// The name that a record gets from what was advertised.
pub open spec fn spec_name_of(properties: Option<Advertisement>) -> Seq<char> {
    match properties {
        Some(Advertisement { local_name: Some(name), .. }) => name@,
        _ => UNKNOWN_DEVICE@,
    }
}

/// The signal strength that a record gets from what was advertised.
pub open spec fn spec_rssi_of(properties: Option<Advertisement>) -> Option<i16> {
    match properties {
        Some(advertisement) => advertisement.rssi,
        None => None,
    }
}

/// The registry after one scan pass for sensors. The sightings are taken in
/// order; only those named exactly `MJ_HT_V1` are filed; and the pass stops
/// with the sighting after which the registry holds `max_devices` or more
/// records of that name.
pub open spec fn ingest_sensors<H>(
    registry: Registry<H>,
    sightings: Seq<BluetoothDevice<H>>,
    max_devices: nat,
) -> Registry<H>
    decreases sightings.len(),
{
    if sightings.len() == 0 {
        registry
    } else if sightings[0].name@ == MJ_HT_V1@ {
        let filed = registry.add_or_update(sightings[0]);
        if filed.named(MJ_HT_V1@).len() >= max_devices {
            filed
        } else {
            ingest_sensors(filed, sightings.drop_first(), max_devices)
        }
    } else {
        ingest_sensors(registry, sightings.drop_first(), max_devices)
    }
}

/// Begins operations on the devices of a registry.
#[derive(Clone, Copy, Debug, PartialEq, Eq, Structural)]
pub struct BluetoothManager {}

impl BluetoothManager {
    pub fn new() -> (manager: Self)
        ensures
            manager == (BluetoothManager {  }),
    {
        BluetoothManager {  }
    }

    /// Makes the record of a sighting. A peripheral that advertises no name
    /// is called `Unknown Device`; one that reports no signal strength has
    /// none in its record.
    pub fn create_bluetooth_device<H>(
        &self,
        mac_address: String,
        properties: Option<Advertisement>,
        peripheral: H,
    ) -> (device: BluetoothDevice<H>)
        ensures
            device.mac_address == mac_address,
            device.name@ == spec_name_of(properties),
            device.signal_strength == spec_rssi_of(properties),
            device.peripheral == peripheral,
    {
        let (name, signal_strength) = match properties {
            Some(Advertisement { local_name, rssi }) => {
                let name = match local_name {
                    Some(name) => name,
                    None => UNKNOWN_DEVICE.to_owned(),
                };
                (name, rssi)
            },
            None => (UNKNOWN_DEVICE.to_owned(), None),
        };
        BluetoothDevice::new(mac_address, name, signal_strength, peripheral)
    }

    /// Files the sightings of one scan pass, in order, and returns the id
    /// that each was filed under.
    pub fn scan<H>(&self, storage: &mut DeviceStorage<H>, sightings: Vec<BluetoothDevice<H>>) -> (ids:
        Vec<u32>)
        requires
            old(storage)@.next_id + sightings@.len() <= u32::MAX,
        ensures
            final(storage)@ == old(storage)@.ingest(sightings@),
            final(storage)@.wf(),
            ids@.len() == sightings@.len(),
            forall|i: int|
                0 <= i < ids@.len() ==> ids@[i] == old(storage)@.returned(sightings@, i),
    {
        let ghost all = sightings@;
        let ghost start = storage@;
        proof {
            use_type_invariant(&*storage);
        }
        let mut ids: Vec<u32> = Vec::new();
        assert(all.take(0) =~= Seq::<BluetoothDevice<H>>::empty());
        for device in it: sightings.into_iter()
            invariant
                it.seq() == all,
                start.wf(),
                start.next_id + all.len() <= u32::MAX,
                storage@ == start.ingest(all.take(it.index())),
                ids@.len() == it.index(),
                forall|i: int| 0 <= i < ids@.len() ==> ids@[i] == start.returned(all, i),
        {
            proof {
                let i = it.index();
                lemma_ingest(start, all.take(i));
                assert(all.take(i + 1).drop_last() =~= all.take(i));
                assert(all.take(i + 1).last() == device);
            }
            let id = storage.add_or_update_device(device);
            ids.push(id);
        }
        proof {
            assert(all.take(all.len() as int) =~= all);
            lemma_ingest(start, all);
        }
        ids
    }

    /// Whether the registry holds `max_devices` or more sensors.
    pub fn sensor_quota_met<H>(&self, storage: &DeviceStorage<H>, max_devices: u8) -> (met: bool)
        ensures
            met == (storage@.named(MJ_HT_V1@).len() >= max_devices),
    {
        storage.count_devices_by_name(MJ_HT_V1) >= max_devices as usize
    }

    /// Files the sensors among the sightings of one scan pass and says
    /// whether the registry then holds `max_devices` or more of them.
    pub fn scan_for_mj_ht_v1_devices<H>(
        &self,
        storage: &mut DeviceStorage<H>,
        sightings: Vec<BluetoothDevice<H>>,
        max_devices: u8,
    ) -> (met: bool)
        requires
            old(storage)@.next_id + sightings@.len() <= u32::MAX,
        ensures
            final(storage)@ == ingest_sensors(old(storage)@, sightings@, max_devices as nat),
            final(storage)@.wf(),
            met == (final(storage)@.named(MJ_HT_V1@).len() >= max_devices),
    {
        let ghost all = sightings@;
        let ghost start = storage@;
        proof {
            use_type_invariant(&*storage);
        }
        assert(all.skip(0) =~= all);
        for device in it: sightings.into_iter()
            invariant
                it.seq() == all,
                all == sightings@,
                start == old(storage)@,
                storage@.wf(),
                storage@.next_id + (all.len() - it.index()) <= u32::MAX,
                ingest_sensors(start, all, max_devices as nat) == ingest_sensors(
                    storage@,
                    all.skip(it.index()),
                    max_devices as nat,
                ),
        {
            proof {
                let rest = all.skip(it.index());
                assert(rest[0] == device);
                assert(rest.drop_first() =~= all.skip(it.index() + 1));
            }
            let ghost before = storage@;
            if same_text(device.name.as_str(), MJ_HT_V1) {
                storage.add_or_update_device(device);
                if self.sensor_quota_met(storage, max_devices) {
                    assert(storage@ == ingest_sensors(
                        before,
                        all.skip(it.index()),
                        max_devices as nat,
                    ));
                    return true;
                }
            }
        }
        proof {
            assert(all.skip(all.len() as int) =~= Seq::<BluetoothDevice<H>>::empty());
        }
        self.sensor_quota_met(storage, max_devices)
    }

    /// The record of `device_id`, or `DeviceNotFound`.
    pub fn with_device<'a, H>(&self, device_id: u32, storage: &'a DeviceStorage<H>) -> (r: Result<
        &'a BluetoothDevice<H>,
        ManagerError,
    >)
        ensures
            match r {
                Ok(device) => storage@.records.contains_key(device_id) && *device
                    == storage@.records[device_id],
                Err(e) => !storage@.records.contains_key(device_id) && e
                    == (ManagerError::DeviceNotFound { device_id }),
            },
    {
        match storage.get_device(device_id) {
            Some(device) => Ok(device),
            None => Err(ManagerError::DeviceNotFound { device_id }),
        }
    }

    /// Begins to connect to the device of `device_id`.
    pub fn connect_device<H>(&self, device_id: u32, storage: &DeviceStorage<H>) -> (r: Result<
        Step<ConnectOp, (), ConnectionError>,
        ManagerError,
    >)
        ensures
            r == spec_begun(storage@, device_id, ConnectOp::spec_start(RetryPolicy::connect())),
    {
        match self.with_device(device_id, storage) {
            Ok(device) => Ok(device.connect()),
            Err(e) => Err(e),
        }
    }

    /// Begins to disconnect from the device of `device_id`.
    pub fn disconnect_device<H>(&self, device_id: u32, storage: &DeviceStorage<H>) -> (r: Result<
        Step<DisconnectOp, (), ConnectionError>,
        ManagerError,
    >)
        ensures
            r == spec_begun(storage@, device_id, DisconnectOp::spec_start()),
    {
        match self.with_device(device_id, storage) {
            Ok(device) => Ok(device.disconnect()),
            Err(e) => Err(e),
        }
    }

    /// Begins a discovery on the device of `device_id`.
    pub fn discover_services<H>(&self, device_id: u32, storage: &DeviceStorage<H>) -> (r: Result<
        Step<DiscoverOp, ServiceTree, DiscoveryError>,
        ManagerError,
    >)
        ensures
            r == spec_begun(storage@, device_id, DiscoverOp::spec_start()),
    {
        match self.with_device(device_id, storage) {
            Ok(device) => Ok(device.discover_services()),
            Err(e) => Err(e),
        }
    }

    /// Begins the listing pass on the device of `device_id`.
    pub fn list_available_info<H>(&self, device_id: u32, storage: &DeviceStorage<H>) -> (r: Result<
        Step<ListInfoOp, ServiceTree, PassError>,
        ManagerError,
    >)
        ensures
            r == spec_begun(storage@, device_id, ListInfoOp::spec_start()),
    {
        match self.with_device(device_id, storage) {
            Ok(device) => Ok(device.list_available_info()),
            Err(e) => Err(e),
        }
    }

    /// Begins the detailed pass on the device of `device_id`.
    pub fn retrieve_device_info<H>(&self, device_id: u32, storage: &DeviceStorage<H>) -> (r: Result<
        Step<RetrieveInfoOp, (), PassError>,
        ManagerError,
    >)
        ensures
            r == spec_begun(storage@, device_id, RetrieveInfoOp::spec_start()),
    {
        match self.with_device(device_id, storage) {
            Ok(device) => Ok(device.retrieve_additional_info()),
            Err(e) => Err(e),
        }
    }

    /// Begins the information pass on the device of `device_id`.
    pub fn read_mj_ht_v1_information<H>(
        &self,
        device_id: u32,
        storage: &DeviceStorage<H>,
    ) -> (r: Result<Step<ReadInfoOp, (), PassError>, ManagerError>)
        ensures
            r == spec_begun(storage@, device_id, ReadInfoOp::spec_start()),
    {
        match self.with_device(device_id, storage) {
            Ok(device) => Ok(device.read_mj_ht_v1_information()),
            Err(e) => Err(e),
        }
    }

    /// Begins the subscribing pass on the device of `device_id`.
    pub fn retrieve_temperature_and_humidity<H>(
        &self,
        device_id: u32,
        storage: &DeviceStorage<H>,
    ) -> (r: Result<Step<SubscribePass, (), SensorError>, ManagerError>)
        ensures
            match r {
                Ok(step) => storage@.records.contains_key(device_id) && is_sensor_subscription(
                    step,
                ),
                Err(e) => !storage@.records.contains_key(device_id) && e
                    == (ManagerError::DeviceNotFound { device_id }),
            },
    {
        match self.with_device(device_id, storage) {
            Ok(device) => Ok(device.subscribe_to_mj_ht_v1_notifications()),
            Err(e) => Err(e),
        }
    }

    /// Begins to read a characteristic of the device of `device_id`, whose
    /// characteristics are those of `tree`.
    pub fn read_characteristic<H>(
        &self,
        device_id: u32,
        storage: &DeviceStorage<H>,
        tree: &ServiceTree,
        service_uuid: &str,
        characteristic_uuid: &str,
    ) -> (r: Result<Step<ReadOp, Vec<u8>, ReadError>, ManagerError>)
        ensures
            match r {
                Ok(step) => storage@.records.contains_key(device_id) && is_read_of(
                    step,
                    *tree,
                    service_uuid@,
                    characteristic_uuid@,
                ),
                Err(e) => !storage@.records.contains_key(device_id) && e
                    == (ManagerError::DeviceNotFound { device_id }),
            },
    {
        match self.with_device(device_id, storage) {
            Ok(device) => Ok(device.read_characteristic(tree, service_uuid, characteristic_uuid)),
            Err(e) => Err(e),
        }
    }

    /// Begins the sensor pass on the device of `device_id`.
    pub fn read_mj_ht_v1<H>(
        &self,
        device_id: u32,
        storage: &DeviceStorage<H>,
        timeout_millis: u64,
    ) -> (r: Result<Step<SensorPass, FieldValues, SensorError>, ManagerError>)
        ensures
            match r {
                Ok(step) => storage@.records.contains_key(device_id) && is_sensor_pass(
                    step,
                    timeout_millis,
                ),
                Err(e) => !storage@.records.contains_key(device_id) && e
                    == (ManagerError::DeviceNotFound { device_id }),
            },
    {
        match self.with_device(device_id, storage) {
            Ok(device) => Ok(device.read_mj_ht_v1(timeout_millis)),
            Err(e) => Err(e),
        }
    }
}

/// An operation is begun for a device that has a record, and refused with
/// `DeviceNotFound` for an id that has none.
pub open spec fn spec_begun<H, T>(registry: Registry<H>, device_id: u32, step: T) -> Result<
    T,
    ManagerError,
> {
    if registry.records.contains_key(device_id) {
        Ok(step)
    } else {
        Err(ManagerError::DeviceNotFound { device_id })
    }
}

} // verus!
