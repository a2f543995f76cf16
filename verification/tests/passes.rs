use ble_central::gatt::{CharPropFlags, CharacteristicDescriptor, ServiceTree};
use ble_central::info::{
    byte_list_text, info_line, percent_text, reason, render, InfoField, InfoOutcome, Rendering,
};
use ble_central::notify::{CollectError, FieldValues, SubscribeError};
use ble_central::passes::{
    ListInfoOp, OpenOp, PassError, ReadInfoOp, RetrieveInfoOp, SensorError, SensorPass,
    SubscribePass,
};
use ble_central::radio::{Reply, Request, Step};
use ble_central::session::{ConnectionError, DiscoveryError, ReadError};
use ble_central::telemetry::{DecodeError, Field, SensorModel};

fn drive<S, T, E>(
    start: Step<S, T, E>,
    replies: Vec<Reply>,
    advance: fn(S, Reply) -> Step<S, T, E>,
) -> (Vec<Request>, Option<Result<T, E>>) {
    let mut requests = Vec::new();
    let mut replies = replies.into_iter();
    let mut step = start;
    loop {
        match step {
            Step::Finished(outcome) => return (requests, Some(outcome)),
            Step::Continue { state, request } => {
                requests.push(request);
                match replies.next() {
                    Some(reply) => step = advance(state, reply),
                    None => return (requests, None),
                }
            }
        }
    }
}

fn descriptor(service: &str, uuid: &str, bits: u8) -> CharacteristicDescriptor {
    CharacteristicDescriptor::new(
        service.to_string(),
        uuid.to_string(),
        CharPropFlags::from_bits(bits),
    )
}

fn battery() -> CharacteristicDescriptor {
    descriptor(
        "0000180f-0000-1000-8000-00805f9b34fb",
        "00002a19-0000-1000-8000-00805f9b34fb",
        0x12,
    )
}

fn device_name() -> CharacteristicDescriptor {
    descriptor(
        "00001800-0000-1000-8000-00805f9b34fb",
        "00002a00-0000-1000-8000-00805f9b34fb",
        0x02,
    )
}

fn tree() -> ServiceTree {
    ServiceTree::new(vec![device_name(), descriptor("s", "notify-only", 0x10), battery()])
}

fn read(characteristic: CharacteristicDescriptor) -> Request {
    Request::Read { characteristic }
}

#[test]
fn opening_connects_then_discovers() {
    let (requests, outcome) = drive(
        OpenOp::start(),
        vec![Reply::Connected(false), Reply::Done, Reply::Services(tree())],
        OpenOp::step,
    );
    assert_eq!(
        requests,
        vec![Request::IsConnected, Request::Connect, Request::DiscoverServices]
    );
    assert_eq!(outcome, Some(Ok(tree())));
}

#[test]
fn opening_reports_connection_and_discovery_failures() {
    let (_, outcome) = drive(OpenOp::start(), vec![Reply::Failed], OpenOp::step);
    assert_eq!(outcome, Some(Err(PassError::Connection(ConnectionError::Unreachable))));
    let (_, outcome) =
        drive(OpenOp::start(), vec![Reply::Connected(true), Reply::Failed], OpenOp::step);
    assert_eq!(outcome, Some(Err(PassError::Discovery(DiscoveryError::Failed))));
}

#[test]
fn listing_pass_hands_out_the_tree_after_disconnecting() {
    let (requests, outcome) = drive(
        ListInfoOp::start(),
        vec![Reply::Connected(true), Reply::Services(tree()), Reply::Done],
        ListInfoOp::step,
    );
    assert_eq!(
        requests,
        vec![Request::IsConnected, Request::DiscoverServices, Request::Disconnect]
    );
    assert_eq!(outcome, Some(Ok(tree())));
}

#[test]
fn listing_pass_reports_a_failed_disconnect() {
    let (_, outcome) = drive(
        ListInfoOp::start(),
        vec![Reply::Connected(true), Reply::Services(tree()), Reply::Failed],
        ListInfoOp::step,
    );
    assert_eq!(outcome, Some(Err(PassError::Connection(ConnectionError::Unreachable))));
}

#[test]
fn detailed_pass_reads_each_readable_characteristic_once() {
    let (requests, outcome) = drive(
        RetrieveInfoOp::start(),
        vec![
            Reply::Connected(true),
            Reply::Services(tree()),
            Reply::Failed,
            Reply::Value(vec![87]),
            Reply::Done,
        ],
        RetrieveInfoOp::step,
    );
    assert_eq!(
        requests,
        vec![
            Request::IsConnected,
            Request::DiscoverServices,
            read(device_name()),
            read(battery()),
            Request::Disconnect,
        ]
    );
    assert_eq!(outcome, Some(Ok(())));
}

#[test]
fn detailed_pass_with_nothing_readable_only_disconnects() {
    let nothing = ServiceTree::new(vec![descriptor("s", "c", 0x10)]);
    let (requests, outcome) = drive(
        RetrieveInfoOp::start(),
        vec![Reply::Connected(true), Reply::Services(nothing), Reply::Done],
        RetrieveInfoOp::step,
    );
    assert_eq!(
        requests,
        vec![Request::IsConnected, Request::DiscoverServices, Request::Disconnect]
    );
    assert_eq!(outcome, Some(Ok(())));
}

#[test]
fn information_pass_reports_every_field_in_order() {
    let replies = vec![
        Reply::Connected(true),
        Reply::Services(tree()),
        // Device Name: link, settle, read, pace, report
        Reply::Connected(true),
        Reply::Done,
        Reply::Value(b"MJ_HT_V1".to_vec()),
        Reply::Done,
        Reply::Done,
        // Appearance, Connection Parameters, Firmware, Manufacturer: missing, one report each
        Reply::Done,
        Reply::Done,
        Reply::Done,
        Reply::Done,
        // Battery Level
        Reply::Connected(true),
        Reply::Done,
        Reply::Value(vec![87]),
        Reply::Done,
        Reply::Done,
        // disconnect
        Reply::Done,
    ];
    let (requests, outcome) = drive(ReadInfoOp::start(), replies, ReadInfoOp::step);
    assert_eq!(outcome, Some(Ok(())));
    let reports: Vec<(InfoField, InfoOutcome)> = requests
        .iter()
        .filter_map(|request| match request {
            Request::Report { field, outcome } => Some((*field, outcome.clone())),
            _ => None,
        })
        .collect();
    assert_eq!(
        reports,
        vec![
            (InfoField::DeviceName, InfoOutcome::Value(b"MJ_HT_V1".to_vec())),
            (InfoField::Appearance, InfoOutcome::Missing),
            (InfoField::ConnectionParameters, InfoOutcome::Missing),
            (InfoField::FirmwareVersion, InfoOutcome::Missing),
            (InfoField::ManufacturerName, InfoOutcome::Missing),
            (InfoField::BatteryLevel, InfoOutcome::Value(vec![87])),
        ]
    );
    assert_eq!(requests.first(), Some(&Request::IsConnected));
    assert_eq!(requests.last(), Some(&Request::Disconnect));
    assert_eq!(requests.iter().filter(|r| **r == read(device_name())).count(), 1);
    assert_eq!(requests.iter().filter(|r| **r == read(battery())).count(), 1);
}

#[test]
fn information_pass_goes_on_after_a_failed_read() {
    let only_name = ServiceTree::new(vec![device_name()]);
    let mut replies = vec![Reply::Connected(true), Reply::Services(only_name)];
    // three failed attempts of Device Name
    replies.extend(vec![
        Reply::Connected(true),
        Reply::Done,
        Reply::Failed,
        Reply::Done,
        Reply::Connected(true),
        Reply::Failed,
        Reply::Done,
        Reply::Connected(true),
        Reply::Failed,
    ]);
    // six reports and the disconnect
    for _ in 0..7 {
        replies.push(Reply::Done);
    }
    let (requests, outcome) = drive(ReadInfoOp::start(), replies, ReadInfoOp::step);
    assert_eq!(outcome, Some(Ok(())));
    let first_report = requests.iter().find(|r| matches!(r, Request::Report { .. })).unwrap();
    assert_eq!(
        *first_report,
        Request::Report {
            field: InfoField::DeviceName,
            outcome: InfoOutcome::Failed(ReadError::RetriesExhausted {
                characteristic_uuid: "00002a00-0000-1000-8000-00805f9b34fb".to_string()
            }),
        }
    );
    assert_eq!(requests.iter().filter(|r| matches!(r, Request::Report { .. })).count(), 6);
}

#[test]
fn information_fields_follow_the_table() {
    let mut fields = vec![InfoField::first()];
    while let Some(next) = fields.last().unwrap().next() {
        fields.push(next);
    }
    assert_eq!(
        fields,
        vec![
            InfoField::DeviceName,
            InfoField::Appearance,
            InfoField::ConnectionParameters,
            InfoField::FirmwareVersion,
            InfoField::ManufacturerName,
            InfoField::BatteryLevel,
        ]
    );
    let labels: Vec<&str> = fields.iter().map(|f| f.label()).collect();
    assert_eq!(
        labels,
        vec![
            "Device Name",
            "Appearance",
            "Peripheral Preferred Connection Parameters",
            "Firmware Version",
            "Manufacturer Name",
            "Battery Level",
        ]
    );
    assert_eq!(InfoField::DeviceName.service_uuid(), "00001800-0000-1000-8000-00805f9b34fb");
    assert_eq!(InfoField::DeviceName.characteristic_uuid(), "00002a00-0000-1000-8000-00805f9b34fb");
    assert_eq!(InfoField::Appearance.characteristic_uuid(), "00002a01-0000-1000-8000-00805f9b34fb");
    assert_eq!(
        InfoField::ConnectionParameters.characteristic_uuid(),
        "00002a04-0000-1000-8000-00805f9b34fb"
    );
    assert_eq!(InfoField::FirmwareVersion.service_uuid(), "0000180a-0000-1000-8000-00805f9b34fb");
    assert_eq!(
        InfoField::FirmwareVersion.characteristic_uuid(),
        "00002a26-0000-1000-8000-00805f9b34fb"
    );
    assert_eq!(
        InfoField::ManufacturerName.characteristic_uuid(),
        "00002a29-0000-1000-8000-00805f9b34fb"
    );
    assert_eq!(InfoField::BatteryLevel.service_uuid(), "0000180f-0000-1000-8000-00805f9b34fb");
    assert_eq!(
        InfoField::BatteryLevel.characteristic_uuid(),
        "00002a19-0000-1000-8000-00805f9b34fb"
    );
    assert_eq!(InfoField::DeviceName.rendering(), Rendering::Text);
    assert_eq!(InfoField::Appearance.rendering(), Rendering::Bytes);
    assert_eq!(InfoField::BatteryLevel.rendering(), Rendering::Percent);
}

#[test]
fn bytes_are_shown_as_a_decimal_list() {
    assert_eq!(byte_list_text(&[]), "[]");
    assert_eq!(byte_list_text(&[0]), "[0]");
    assert_eq!(byte_list_text(&[1, 20, 255]), "[1, 20, 255]");
    assert_eq!(byte_list_text(&[9, 10, 99, 100, 101]), format!("{:?}", [9u8, 10, 99, 100, 101]));
}

#[test]
fn every_byte_is_shown_as_the_standard_library_shows_it() {
    for n in 0..=255u8 {
        assert_eq!(percent_text(n), format!("{}%", n));
    }
}

#[test]
fn values_are_rendered_by_the_kind_of_their_field() {
    assert_eq!(render(InfoField::DeviceName, b"MJ_HT_V1"), Ok("MJ_HT_V1".to_string()));
    assert_eq!(render(InfoField::Appearance, &[0x40, 0x03]), Ok("[64, 3]".to_string()));
    assert_eq!(render(InfoField::BatteryLevel, &[87, 1]), Ok("87%".to_string()));
    assert_eq!(render(InfoField::BatteryLevel, &[]), Err(DecodeError::Truncated));
    assert_eq!(render(InfoField::FirmwareVersion, &[]), Ok(String::new()));
}

#[test]
fn text_that_is_not_utf8_is_shown_with_replacement_characters() {
    assert_eq!(
        render(InfoField::ManufacturerName, &[b'a', 0xff, b'b']),
        Ok("a\u{fffd}b".to_string())
    );
    assert_eq!(
        render(InfoField::ManufacturerName, "Mi é".as_bytes()),
        Ok("Mi é".to_string())
    );
}

#[test]
fn report_lines_name_the_field_and_its_value_or_failure() {
    assert_eq!(
        info_line(InfoField::DeviceName, &InfoOutcome::Value(b"MJ_HT_V1".to_vec())),
        "Device Name: MJ_HT_V1"
    );
    assert_eq!(
        info_line(InfoField::BatteryLevel, &InfoOutcome::Value(vec![100])),
        "Battery Level: 100%"
    );
    assert_eq!(
        info_line(InfoField::BatteryLevel, &InfoOutcome::Value(Vec::new())),
        "Failed to read Battery Level: value too short"
    );
    assert_eq!(
        info_line(InfoField::Appearance, &InfoOutcome::Missing),
        "Failed to read Appearance: characteristic not found"
    );
    assert_eq!(
        info_line(
            InfoField::FirmwareVersion,
            &InfoOutcome::Failed(ReadError::Connection(ConnectionError::RetriesExhausted))
        ),
        "Failed to read Firmware Version: connection failed"
    );
    assert_eq!(
        reason(&ReadError::RetriesExhausted { characteristic_uuid: "c".to_string() }),
        "read failed after retries"
    );
}

fn temperature() -> CharacteristicDescriptor {
    descriptor(
        "226c0000-6476-4566-7562-66734470666d",
        "226caa55-6476-4566-7562-66734470666d",
        0x10,
    )
}

fn humidity() -> CharacteristicDescriptor {
    descriptor(
        "226c0000-6476-4566-7562-66734470666d",
        "226cbb55-6476-4566-7562-66734470666d",
        0x10,
    )
}

fn sensor_tree() -> ServiceTree {
    ServiceTree::new(vec![device_name(), humidity(), temperature()])
}

fn notification(uuid: &str, value: &[u8]) -> Reply {
    Reply::Notification { uuid: uuid.to_string(), value: value.to_vec() }
}

#[test]
fn subscribing_pass_turns_on_temperature_then_humidity() {
    let (requests, outcome) = drive(
        SubscribePass::start(SensorModel::mj_ht_v1()),
        vec![
            Reply::Connected(true),
            Reply::Services(sensor_tree()),
            Reply::Connected(true),
            Reply::Done,
            Reply::Connected(true),
            Reply::Done,
        ],
        SubscribePass::step,
    );
    assert_eq!(
        requests,
        vec![
            Request::IsConnected,
            Request::DiscoverServices,
            Request::IsConnected,
            Request::Subscribe { characteristic: temperature() },
            Request::IsConnected,
            Request::Subscribe { characteristic: humidity() },
        ]
    );
    assert_eq!(outcome, Some(Ok(())));
}

#[test]
fn subscribing_pass_names_the_field_without_characteristic() {
    let only_temperature = ServiceTree::new(vec![temperature()]);
    let (requests, outcome) = drive(
        SubscribePass::start(SensorModel::mj_ht_v1()),
        vec![
            Reply::Connected(true),
            Reply::Services(only_temperature),
            Reply::Connected(true),
            Reply::Done,
        ],
        SubscribePass::step,
    );
    assert_eq!(requests.len(), 4);
    assert_eq!(outcome, Some(Err(SensorError::Missing { field: Field::Humidity })));

    let (requests, outcome) = drive(
        SubscribePass::start(SensorModel::mj_ht_v1()),
        vec![Reply::Connected(true), Reply::Services(ServiceTree::new(Vec::new()))],
        SubscribePass::step,
    );
    assert_eq!(requests.len(), 2);
    assert_eq!(outcome, Some(Err(SensorError::Missing { field: Field::Temperature })));
}

#[test]
fn subscribing_pass_reports_opening_and_subscribe_failures() {
    let (_, outcome) = drive(
        SubscribePass::start(SensorModel::mj_ht_v1()),
        vec![Reply::Connected(true), Reply::Failed],
        SubscribePass::step,
    );
    assert_eq!(
        outcome,
        Some(Err(SensorError::Pass(PassError::Discovery(DiscoveryError::Failed))))
    );
    let (_, outcome) = drive(
        SubscribePass::start(SensorModel::mj_ht_v1()),
        vec![
            Reply::Connected(true),
            Reply::Services(sensor_tree()),
            Reply::Connected(true),
            Reply::Failed,
            Reply::Done,
            Reply::Connected(true),
            Reply::Failed,
            Reply::Done,
            Reply::Connected(true),
            Reply::Failed,
        ],
        SubscribePass::step,
    );
    assert_eq!(
        outcome,
        Some(Err(SensorError::Subscribe(SubscribeError::RetriesExhausted {
            characteristic_uuid: "226caa55-6476-4566-7562-66734470666d".to_string()
        })))
    );
}

#[test]
fn sensor_pass_collects_a_reading_and_disconnects() {
    let (requests, outcome) = drive(
        SensorPass::start(SensorModel::mj_ht_v1(), 30_000),
        vec![
            Reply::Connected(true),
            Reply::Services(sensor_tree()),
            Reply::Connected(true),
            Reply::Done,
            Reply::Connected(true),
            Reply::Done,
            notification("226caa55-6476-4566-7562-66734470666d", &[0x29, 0x09]),
            notification("226cbb55-6476-4566-7562-66734470666d", &[0, 0, 0x88, 0x13]),
            Reply::Done,
        ],
        SensorPass::step,
    );
    assert_eq!(requests.len(), 9);
    assert_eq!(requests[6], Request::NextNotification);
    assert_eq!(requests[7], Request::NextNotification);
    assert_eq!(requests[8], Request::Disconnect);
    assert_eq!(outcome, Some(Ok(FieldValues { temperature: Some(2345), humidity: Some(5000) })));
}

#[test]
fn sensor_pass_reports_a_timeout() {
    let (requests, outcome) = drive(
        SensorPass::start(SensorModel::mj_ht_v1(), 10),
        vec![
            Reply::Connected(true),
            Reply::Services(sensor_tree()),
            Reply::Connected(true),
            Reply::Done,
            Reply::Connected(true),
            Reply::Done,
            Reply::TimedOut,
        ],
        SensorPass::step,
    );
    assert_eq!(requests.len(), 7);
    assert_eq!(outcome, Some(Err(SensorError::Collect(CollectError::Timeout))));
}

#[test]
fn sensor_pass_keeps_its_timeout_for_the_driver() {
    match SensorPass::start(SensorModel::mj_ht_v1(), 4321) {
        Step::Continue { state, request } => {
            assert_eq!(state.timeout_millis, 4321);
            assert_eq!(request, Request::IsConnected);
        }
        Step::Finished(_) => panic!("the pass begins with a probe"),
    }
}
