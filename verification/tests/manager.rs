use ble_central::bluetooth_manager::{Advertisement, BluetoothManager, ManagerError};
use ble_central::device_info::{BluetoothDevice, DeviceError, Failure};
use ble_central::device_storage::DeviceStorage;
use ble_central::gatt::{
    CharPropFlags, CharacteristicDescriptor, NotFoundError, ServiceTree, MJ_HT_V1_HUMIDITY,
    MJ_HT_V1_SERVICE, MJ_HT_V1_TEMPERATURE,
};
use ble_central::notify::{SubscribeError, SubscribeOp};
use ble_central::passes::{
    ListInfoOp, ReadInfoOp, RetrieveInfoOp, SensorError, SensorPass, SubscribePass,
};
use ble_central::radio::{Request, Step};
use ble_central::retry::RetryPolicy;
use ble_central::session::{
    ConnectOp, ConnectionError, DisconnectOp, DiscoverOp, ReadError, ReadOp,
};
use ble_central::telemetry::SensorModel;

fn sighting(mac: &str, name: &str) -> BluetoothDevice<u8> {
    BluetoothDevice::new(mac.to_string(), name.to_string(), Some(-40), 0)
}

fn descriptor(service: &str, uuid: &str, bits: u8) -> CharacteristicDescriptor {
    CharacteristicDescriptor::new(
        service.to_string(),
        uuid.to_string(),
        CharPropFlags::from_bits(bits),
    )
}

fn sensor_tree() -> ServiceTree {
    ServiceTree::new(vec![
        descriptor(MJ_HT_V1_SERVICE, MJ_HT_V1_TEMPERATURE, 0x12),
        descriptor(MJ_HT_V1_SERVICE, MJ_HT_V1_HUMIDITY, 0x10),
    ])
}

#[test]
fn sighting_without_name_or_rssi_gets_the_defaults() {
    let manager = BluetoothManager::new();
    let device = manager.create_bluetooth_device("AA:BB".to_string(), None, 3u8);
    assert_eq!(device.mac_address, "AA:BB");
    assert_eq!(device.name, "Unknown Device");
    assert_eq!(device.signal_strength, None);
    assert_eq!(device.rssi(), 0);
    assert_eq!(device.peripheral, 3);

    let unnamed = Advertisement { local_name: None, rssi: Some(-70) };
    let device = manager.create_bluetooth_device("AA:BB".to_string(), Some(unnamed), 3u8);
    assert_eq!(device.name, "Unknown Device");
    assert_eq!(device.signal_strength, Some(-70));
}

#[test]
fn sighting_takes_name_and_rssi_from_the_advertisement() {
    let manager = BluetoothManager::new();
    let advertisement = Advertisement { local_name: Some("MJ_HT_V1".to_string()), rssi: Some(-60) };
    let device = manager.create_bluetooth_device("AA:BB".to_string(), Some(advertisement), 9u8);
    assert_eq!(device, BluetoothDevice::new("AA:BB".to_string(), "MJ_HT_V1".to_string(), Some(-60), 9));
}

#[test]
fn scan_files_every_sighting_and_returns_the_ids() {
    let manager = BluetoothManager::new();
    let mut storage: DeviceStorage<u8> = DeviceStorage::new();
    let ids = manager.scan(
        &mut storage,
        vec![sighting("AA", "a"), sighting("BB", "b"), sighting("AA", "a again")],
    );
    assert_eq!(ids, vec![1, 2, 1]);
    assert_eq!(storage.len(), 2);
    assert_eq!(storage.get_device(1).unwrap().name, "a again");
    let ids = manager.scan(&mut storage, vec![sighting("CC", "c"), sighting("BB", "b")]);
    assert_eq!(ids, vec![3, 2]);
    assert!(manager.scan(&mut storage, Vec::new()).is_empty());
    assert_eq!(storage.len(), 3);
}

#[test]
fn sensor_scan_files_only_sensors_and_stops_at_the_quota() {
    let manager = BluetoothManager::new();
    let mut storage: DeviceStorage<u8> = DeviceStorage::new();
    let met = manager.scan_for_mj_ht_v1_devices(
        &mut storage,
        vec![
            sighting("AA", "other"),
            sighting("BB", "MJ_HT_V1"),
            sighting("CC", "MJ_HT_V1 "),
            sighting("DD", "MJ_HT_V1"),
            sighting("EE", "MJ_HT_V1"),
        ],
        2,
    );
    assert!(met);
    let macs: Vec<String> =
        storage.list_devices().iter().map(|(_, d)| d.mac_address.clone()).collect();
    assert_eq!(macs, vec!["BB".to_string(), "DD".to_string()]);
    assert!(manager.sensor_quota_met(&storage, 2));
    assert!(!manager.sensor_quota_met(&storage, 3));
}

#[test]
fn sensor_scan_reports_an_unmet_quota() {
    let manager = BluetoothManager::new();
    let mut storage: DeviceStorage<u8> = DeviceStorage::new();
    let met = manager.scan_for_mj_ht_v1_devices(
        &mut storage,
        vec![sighting("BB", "MJ_HT_V1"), sighting("BB", "MJ_HT_V1"), sighting("AA", "x")],
        2,
    );
    assert!(!met);
    assert_eq!(storage.len(), 1);
    assert!(manager.scan_for_mj_ht_v1_devices(&mut storage, Vec::new(), 0));
}

#[test]
fn operations_on_an_unknown_id_are_refused() {
    let manager = BluetoothManager::new();
    let mut storage: DeviceStorage<u8> = DeviceStorage::new();
    storage.add_or_update_device(sighting("AA", "a"));
    let missing = ManagerError::DeviceNotFound { device_id: 2 };
    let tree = sensor_tree();
    assert_eq!(manager.with_device(2, &storage), Err(missing));
    assert_eq!(manager.connect_device(2, &storage), Err(missing));
    assert_eq!(manager.disconnect_device(2, &storage), Err(missing));
    assert_eq!(manager.discover_services(2, &storage), Err(missing));
    assert_eq!(manager.list_available_info(2, &storage), Err(missing));
    assert_eq!(manager.retrieve_device_info(2, &storage), Err(missing));
    assert_eq!(manager.read_mj_ht_v1_information(2, &storage), Err(missing));
    assert_eq!(manager.retrieve_temperature_and_humidity(2, &storage), Err(missing));
    assert_eq!(manager.read_characteristic(2, &storage, &tree, "s", "c"), Err(missing));
    assert_eq!(manager.read_mj_ht_v1(2, &storage, 1000), Err(missing));
}

#[test]
fn operations_on_a_known_id_are_begun() {
    let manager = BluetoothManager::new();
    let mut storage: DeviceStorage<u8> = DeviceStorage::new();
    storage.add_or_update_device(sighting("AA", "a"));
    let tree = sensor_tree();
    assert_eq!(manager.with_device(1, &storage), Ok(&sighting("AA", "a")));
    assert_eq!(manager.connect_device(1, &storage), Ok(ConnectOp::start(RetryPolicy::connect())));
    assert_eq!(manager.disconnect_device(1, &storage), Ok(DisconnectOp::start()));
    assert_eq!(manager.discover_services(1, &storage), Ok(DiscoverOp::start()));
    assert_eq!(manager.list_available_info(1, &storage), Ok(ListInfoOp::start()));
    assert_eq!(manager.retrieve_device_info(1, &storage), Ok(RetrieveInfoOp::start()));
    assert_eq!(manager.read_mj_ht_v1_information(1, &storage), Ok(ReadInfoOp::start()));
    assert_eq!(
        manager.retrieve_temperature_and_humidity(1, &storage),
        Ok(SubscribePass::start(SensorModel::mj_ht_v1()))
    );
    assert_eq!(
        manager.read_characteristic(1, &storage, &tree, MJ_HT_V1_SERVICE, MJ_HT_V1_TEMPERATURE),
        Ok(ReadOp::start(tree.characteristics[0].clone()))
    );
    assert_eq!(
        manager.read_mj_ht_v1(1, &storage, 1000),
        Ok(SensorPass::start(SensorModel::mj_ht_v1(), 1000))
    );
}

#[test]
fn device_begins_its_operations() {
    let device = sighting("AA", "a");
    let tree = sensor_tree();
    assert_eq!(device.connect(), ConnectOp::start(RetryPolicy::connect()));
    match device.connect() {
        Step::Continue { request, .. } => assert_eq!(request, Request::IsConnected),
        Step::Finished(_) => panic!("connecting begins with a probe"),
    }
    assert_eq!(device.disconnect(), DisconnectOp::start());
    assert_eq!(device.discover_services(), DiscoverOp::start());
    assert_eq!(
        device.find_characteristic(&tree, MJ_HT_V1_SERVICE, MJ_HT_V1_HUMIDITY),
        Some(tree.characteristics[1].clone())
    );
    assert_eq!(device.find_characteristic(&tree, MJ_HT_V1_SERVICE, "nope"), None);
    assert_eq!(
        device.subscribe_to_notifications(&tree, MJ_HT_V1_SERVICE, MJ_HT_V1_HUMIDITY),
        SubscribeOp::start(tree.characteristics[1].clone())
    );
    assert_eq!(
        device.subscribe_to_mj_ht_v1_notifications(),
        SubscribePass::start(SensorModel::mj_ht_v1())
    );
    assert_eq!(device.read_mj_ht_v1(250), SensorPass::start(SensorModel::mj_ht_v1(), 250));
}

#[test]
fn lookups_that_miss_end_the_operation_with_not_found() {
    let device = sighting("AA", "a");
    let tree = ServiceTree::new(vec![descriptor(MJ_HT_V1_SERVICE, MJ_HT_V1_TEMPERATURE, 0x10)]);
    assert_eq!(
        device.read_characteristic(&tree, "svc", "chr"),
        Step::Finished(Err(ReadError::NotFound(NotFoundError {
            service_uuid: "svc".to_string(),
            characteristic_uuid: "chr".to_string(),
        })))
    );
    assert_eq!(
        device.subscribe_to_notifications(&tree, "svc", "chr"),
        Step::Finished(Err(SubscribeError::NotFound(NotFoundError {
            service_uuid: "svc".to_string(),
            characteristic_uuid: "chr".to_string(),
        })))
    );
}

#[test]
fn failures_carry_the_mac_address_of_the_device() {
    let device = sighting("AA:BB", "a");
    assert_eq!(
        device.failure(Failure::Connection(ConnectionError::RetriesExhausted)),
        DeviceError {
            mac_address: "AA:BB".to_string(),
            failure: Failure::Connection(ConnectionError::RetriesExhausted),
        }
    );
    let missing = Failure::Sensor(SensorError::Missing { field: ble_central::telemetry::Field::Humidity });
    assert_eq!(device.failure(missing.clone()).failure, missing);
}
