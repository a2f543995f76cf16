//! The record kept for one peripheral.

use crate::gatt::{CharacteristicDescriptor, ServiceTree};
use crate::notify::{CollectError, FieldValues, SubscribeError, SubscribeOp};
use crate::passes::{
    ListInfoOp,
    PassError,
    ReadInfoOp,
    RetrieveInfoOp,
    SensorError,
    SensorPass,
    SubscribePass,
};
use crate::radio::Step;
use crate::retry::RetryPolicy;
use crate::session::{
    ConnectOp,
    ConnectionError,
    DisconnectOp,
    DiscoverOp,
    DiscoveryError,
    ReadError,
    ReadOp,
};
use crate::telemetry::SensorModel;
use vstd::prelude::*;

verus! {

/// Name given to a peripheral that advertises none.
pub const UNKNOWN_DEVICE: &'static str = "Unknown Device";

/// Signal strength shown for a peripheral that reports none.
pub const UNKNOWN_RSSI: i16 = 0;

/// What went wrong in an operation on a device.
#[derive(Clone, Debug, PartialEq, Eq)]
pub enum Failure {
    Connection(ConnectionError),
    Discovery(DiscoveryError),
    Read(ReadError),
    Subscribe(SubscribeError),
    Collect(CollectError),
    Pass(PassError),
    Sensor(SensorError),
}

/// A failure together with the device on which it happened.
#[derive(Clone, Debug, PartialEq, Eq)]
pub struct DeviceError {
    pub mac_address: String,
    pub failure: Failure,
}

/// One physically distinct peripheral, as last seen by a scan. `H` is the
/// handle through which the driver reaches the peripheral; the record owns
/// it and never looks into it.
#[derive(Clone, Debug, PartialEq, Eq)]
pub struct BluetoothDevice<H> {
    /// The hardware identity by which sightings are told apart.
    pub mac_address: String,
    /// The name last advertised.
    pub name: String,
    /// The signal strength last reported, where the advertisement held one.
    pub signal_strength: Option<i16>,
    pub peripheral: H,
}

/// `step` begins the read of the characteristic of `tree` that the UUID
/// pair names, or is the `NotFound` failure that carries the pair.
pub open spec fn is_read_of(
    step: Step<ReadOp, Vec<u8>, ReadError>,
    tree: ServiceTree,
    service_uuid: Seq<char>,
    characteristic_uuid: Seq<char>,
) -> bool {
    match tree.spec_find(service_uuid, characteristic_uuid) {
        Some(characteristic) => step == ReadOp::spec_start(characteristic),
        None => {
            &&& step matches Step::Finished(Err(ReadError::NotFound(e)))
            &&& e.service_uuid@ == service_uuid
            &&& e.characteristic_uuid@ == characteristic_uuid
        },
    }
}

/// `step` begins the subscription to the characteristic of `tree` that the
/// UUID pair names, or is the `NotFound` failure that carries the pair.
pub open spec fn is_subscription_to(
    step: Step<SubscribeOp, (), SubscribeError>,
    tree: ServiceTree,
    service_uuid: Seq<char>,
    characteristic_uuid: Seq<char>,
) -> bool {
    match tree.spec_find(service_uuid, characteristic_uuid) {
        Some(characteristic) => step == SubscribeOp::spec_start(characteristic),
        None => {
            &&& step matches Step::Finished(Err(SubscribeError::NotFound(e)))
            &&& e.service_uuid@ == service_uuid
            &&& e.characteristic_uuid@ == characteristic_uuid
        },
    }
}

/// `step` begins the subscribing pass under the layout of the MJ_HT_V1
/// sensor.
pub open spec fn is_sensor_subscription(step: Step<SubscribePass, (), SensorError>) -> bool {
    exists|model: SensorModel|
        model.is_mj_ht_v1() && step == #[trigger] SubscribePass::spec_start(model)
}

/// `step` begins the sensor pass under the layout of the MJ_HT_V1 sensor,
/// with `timeout_millis` for the reading to arrive.
pub open spec fn is_sensor_pass(
    step: Step<SensorPass, FieldValues, SensorError>,
    timeout_millis: u64,
) -> bool {
    exists|model: SensorModel|
        model.is_mj_ht_v1() && step == #[trigger] SensorPass::spec_start(model, timeout_millis)
}

impl<H> BluetoothDevice<H> {
    pub fn new(mac_address: String, name: String, signal_strength: Option<i16>, peripheral: H) -> (device:
        Self)
        ensures
            device == (BluetoothDevice { mac_address, name, signal_strength, peripheral }),
    {
        BluetoothDevice { mac_address, name, signal_strength, peripheral }
    }

    /// The signal strength, or `UNKNOWN_RSSI` where none was reported.
    pub open spec fn spec_rssi(&self) -> i16 {
        match self.signal_strength {
            Some(rssi) => rssi,
            None => UNKNOWN_RSSI,
        }
    }

    #[verifier::when_used_as_spec(spec_rssi)]
    pub fn rssi(&self) -> (rssi: i16)
        ensures
            rssi == self.spec_rssi(),
    {
        match self.signal_strength {
            Some(rssi) => rssi,
            None => UNKNOWN_RSSI,
        }
    }

    /// Puts the MAC address of this device to a failure.
    pub fn failure(&self, failure: Failure) -> (error: DeviceError)
        ensures
            error.mac_address == self.mac_address,
            error.failure == failure,
    {
        DeviceError { mac_address: self.mac_address.clone(), failure }
    }

    /// Begins to connect, under the connect policy.
    pub fn connect(&self) -> (step: Step<ConnectOp, (), ConnectionError>)
        ensures
            step == ConnectOp::spec_start(RetryPolicy::connect()),
    {
        ConnectOp::start(RetryPolicy::connect())
    }

    /// Begins to disconnect.
    pub fn disconnect(&self) -> (step: Step<DisconnectOp, (), ConnectionError>)
        ensures
            step == DisconnectOp::spec_start(),
    {
        DisconnectOp::start()
    }

    /// Begins a discovery on the connected session.
    pub fn discover_services(&self) -> (step: Step<DiscoverOp, ServiceTree, DiscoveryError>)
        ensures
            step == DiscoverOp::spec_start(),
    {
        DiscoverOp::start()
    }

    /// The first characteristic of `tree` that the UUID pair names.
    pub fn find_characteristic(
        &self,
        tree: &ServiceTree,
        service_uuid: &str,
        characteristic_uuid: &str,
    ) -> (found: Option<CharacteristicDescriptor>)
        ensures
            found == tree.spec_find(service_uuid@, characteristic_uuid@),
    {
        match tree.find(service_uuid, characteristic_uuid) {
            Some(characteristic) => Some(characteristic.duplicate()),
            None => None,
        }
    }

    /// Begins to read the characteristic that the UUID pair names. A pair
    /// that the tree does not hold ends the read at once with `NotFound`,
    /// which carries the pair asked for.
    pub fn read_characteristic(
        &self,
        tree: &ServiceTree,
        service_uuid: &str,
        characteristic_uuid: &str,
    ) -> (step: Step<ReadOp, Vec<u8>, ReadError>)
        ensures
            is_read_of(step, *tree, service_uuid@, characteristic_uuid@),
    {
        match tree.resolve(service_uuid, characteristic_uuid) {
            Ok(characteristic) => ReadOp::start(characteristic),
            Err(e) => Step::Finished(Err(ReadError::NotFound(e))),
        }
    }

    /// Begins to subscribe to the characteristic that the UUID pair names.
    /// A pair that the tree does not hold ends the subscription at once
    /// with `NotFound`, which carries the pair asked for.
    pub fn subscribe_to_notifications(
        &self,
        tree: &ServiceTree,
        service_uuid: &str,
        characteristic_uuid: &str,
    ) -> (step: Step<SubscribeOp, (), SubscribeError>)
        ensures
            is_subscription_to(step, *tree, service_uuid@, characteristic_uuid@),
    {
        match tree.resolve(service_uuid, characteristic_uuid) {
            Ok(characteristic) => SubscribeOp::start(characteristic),
            Err(e) => Step::Finished(Err(SubscribeError::NotFound(e))),
        }
    }

    /// Begins the subscribing pass: connect, discover, and turn on the
    /// notifications of temperature and humidity of an MJ_HT_V1 sensor.
    pub fn subscribe_to_mj_ht_v1_notifications(&self) -> (step: Step<
        SubscribePass,
        (),
        SensorError,
    >)
        ensures
            is_sensor_subscription(step),
    {
        let model = SensorModel::mj_ht_v1();
        let step = SubscribePass::start(model);
        assert(step == SubscribePass::spec_start(model));
        step
    }

    /// Begins the sensor pass: the subscribing pass, then the collection of
    /// a full reading of an MJ_HT_V1 sensor within `timeout_millis`.
    pub fn read_mj_ht_v1(&self, timeout_millis: u64) -> (step: Step<
        SensorPass,
        FieldValues,
        SensorError,
    >)
        ensures
            is_sensor_pass(step, timeout_millis),
    {
        let model = SensorModel::mj_ht_v1();
        let step = SensorPass::start(model, timeout_millis);
        assert(step == SensorPass::spec_start(model, timeout_millis));
        step
    }

    /// Begins the listing pass.
    pub fn list_available_info(&self) -> (step: Step<ListInfoOp, ServiceTree, PassError>)
        ensures
            step == ListInfoOp::spec_start(),
    {
        ListInfoOp::start()
    }

    /// Begins the detailed pass.
    pub fn retrieve_additional_info(&self) -> (step: Step<RetrieveInfoOp, (), PassError>)
        ensures
            step == RetrieveInfoOp::spec_start(),
    {
        RetrieveInfoOp::start()
    }

    /// Begins the information pass.
    pub fn read_mj_ht_v1_information(&self) -> (step: Step<ReadInfoOp, (), PassError>)
        ensures
            step == ReadInfoOp::spec_start(),
    {
        ReadInfoOp::start()
    }
}

} // verus!
