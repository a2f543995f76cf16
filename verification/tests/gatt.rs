use ble_central::gatt::{
    CharPropFlags, CharacteristicDescriptor, NotFoundError, Property, ServiceTree,
    UnsupportedOperationError, MJ_HT_V1_HUMIDITY, MJ_HT_V1_SERVICE, MJ_HT_V1_TEMPERATURE,
};

fn descriptor(service: &str, uuid: &str, bits: u8) -> CharacteristicDescriptor {
    CharacteristicDescriptor::new(
        service.to_string(),
        uuid.to_string(),
        CharPropFlags::from_bits(bits),
    )
}

fn sensor_tree() -> ServiceTree {
    ServiceTree::new(vec![
        descriptor("00001800-0000-1000-8000-00805f9b34fb", "00002a00-0000-1000-8000-00805f9b34fb", 0x02),
        descriptor(MJ_HT_V1_SERVICE, MJ_HT_V1_TEMPERATURE, 0x10),
        descriptor(MJ_HT_V1_SERVICE, MJ_HT_V1_HUMIDITY, 0x12),
    ])
}

#[test]
fn property_masks_are_the_gatt_bits() {
    assert_eq!(Property::Broadcast.mask(), 0x01);
    assert_eq!(Property::Read.mask(), 0x02);
    assert_eq!(Property::WriteWithoutResponse.mask(), 0x04);
    assert_eq!(Property::Write.mask(), 0x08);
    assert_eq!(Property::Notify.mask(), 0x10);
    assert_eq!(Property::Indicate.mask(), 0x20);
    assert_eq!(Property::AuthenticatedSignedWrites.mask(), 0x40);
    assert_eq!(Property::ExtendedProperties.mask(), 0x80);
}

#[test]
fn flags_contain_exactly_the_set_bits() {
    let flags = CharPropFlags::from_bits(0x12);
    assert!(flags.contains(Property::Read));
    assert!(flags.contains(Property::Notify));
    assert!(!flags.contains(Property::Write));
    assert!(!flags.contains(Property::Broadcast));
    assert!(!CharPropFlags::empty().contains(Property::Read));
    let built = CharPropFlags::empty().with(Property::Notify).with(Property::Read);
    assert_eq!(built, flags);
    assert_eq!(built.with(Property::Read), flags);
}

#[test]
fn find_returns_the_descriptor_of_the_pair() {
    let tree = sensor_tree();
    let found = tree.find(MJ_HT_V1_SERVICE, MJ_HT_V1_HUMIDITY).unwrap();
    assert_eq!(found.uuid, MJ_HT_V1_HUMIDITY);
    assert_eq!(found.properties, CharPropFlags::from_bits(0x12));
}

#[test]
fn find_ignores_the_case_of_hex_digits() {
    let tree = sensor_tree();
    let found = tree
        .find(
            "226C0000-6476-4566-7562-66734470666D",
            "226CAA55-6476-4566-7562-66734470666D",
        )
        .unwrap();
    assert_eq!(found.uuid, MJ_HT_V1_TEMPERATURE);
}

#[test]
fn find_needs_both_uuids_to_match() {
    let tree = sensor_tree();
    assert!(tree.find("00001800-0000-1000-8000-00805f9b34fb", MJ_HT_V1_TEMPERATURE).is_none());
    assert!(tree.find(MJ_HT_V1_SERVICE, "00002a00-0000-1000-8000-00805f9b34fb").is_none());
    assert!(ServiceTree::new(Vec::new()).find(MJ_HT_V1_SERVICE, MJ_HT_V1_TEMPERATURE).is_none());
}

#[test]
fn find_returns_the_first_of_several_matches() {
    let tree = ServiceTree::new(vec![
        descriptor("aa", "bb", 0x02),
        descriptor("AA", "BB", 0x10),
    ]);
    assert_eq!(tree.find("Aa", "bB").unwrap().properties, CharPropFlags::from_bits(0x02));
}

#[test]
fn resolving_an_absent_pair_names_the_characteristic_asked_for() {
    let tree = sensor_tree();
    let missing = "0000ffff-0000-1000-8000-00805f9b34fb";
    assert_eq!(
        tree.resolve(MJ_HT_V1_SERVICE, missing),
        Err(NotFoundError {
            service_uuid: MJ_HT_V1_SERVICE.to_string(),
            characteristic_uuid: missing.to_string(),
        })
    );
    assert_eq!(
        tree.resolve(MJ_HT_V1_SERVICE, MJ_HT_V1_TEMPERATURE),
        Ok(descriptor(MJ_HT_V1_SERVICE, MJ_HT_V1_TEMPERATURE, 0x10))
    );
}

#[test]
fn require_fails_fast_on_a_missing_property() {
    let temperature = descriptor(MJ_HT_V1_SERVICE, MJ_HT_V1_TEMPERATURE, 0x10);
    assert_eq!(temperature.require(Property::Notify), Ok(()));
    assert_eq!(
        temperature.require(Property::Read),
        Err(UnsupportedOperationError {
            characteristic_uuid: MJ_HT_V1_TEMPERATURE.to_string(),
            required: Property::Read,
        })
    );
}

#[test]
fn descriptor_is_named_by_its_pair_and_duplicates_equal() {
    let d = descriptor("aa", "bb", 0x02);
    assert!(d.answers_to("AA", "BB"));
    assert!(!d.answers_to("AA", "BC"));
    assert_eq!(d.duplicate(), d);
}
