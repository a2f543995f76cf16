use ble_central::telemetry::{
    decode_scaled_int16_le, parse_humidity, parse_temperature, DecodeError, Field, SensorModel,
};

fn physical(hundredths: i16) -> f32 {
    hundredths as f32 / 100.0
}

#[test]
fn ten_thousand_hundredths_decode_to_one_hundred() {
    let decoded = decode_scaled_int16_le(&[0x10, 0x27], 0);
    assert_eq!(decoded, Ok(10000));
    assert_eq!(physical(decoded.unwrap()), 100.00);
}

#[test]
fn zero_bytes_decode_to_zero() {
    let decoded = decode_scaled_int16_le(&[0x00, 0x00], 0);
    assert_eq!(decoded, Ok(0));
    assert_eq!(physical(decoded.unwrap()), 0.00);
}

#[test]
fn single_byte_is_truncated() {
    assert_eq!(decode_scaled_int16_le(&[0x10], 0), Err(DecodeError::Truncated));
    assert_eq!(decode_scaled_int16_le(&[], 0), Err(DecodeError::Truncated));
}

#[test]
fn decoding_is_signed_and_little_endian() {
    assert_eq!(decode_scaled_int16_le(&[0xff, 0xff], 0), Ok(-1));
    assert_eq!(decode_scaled_int16_le(&[0x00, 0x80], 0), Ok(i16::MIN));
    assert_eq!(decode_scaled_int16_le(&[0xff, 0x7f], 0), Ok(i16::MAX));
    assert_eq!(decode_scaled_int16_le(&[0x01, 0x00], 0), Ok(1));
    assert_eq!(decode_scaled_int16_le(&[0x00, 0x01], 0), Ok(256));
    assert_eq!(decode_scaled_int16_le(&[0x3c, 0xf6], 0), Ok(-2500));
    assert_eq!(physical(-2500), -25.0);
    assert_eq!(decode_scaled_int16_le(&[0x29, 0x09], 0), Ok(2345));
    assert_eq!(physical(2345), 23.45);
}

#[test]
fn decoding_agrees_with_the_standard_library_on_every_pair() {
    for low in 0..=255u8 {
        for high in 0..=255u8 {
            assert_eq!(
                decode_scaled_int16_le(&[low, high], 0),
                Ok(i16::from_le_bytes([low, high]))
            );
        }
    }
}

#[test]
fn offset_selects_the_bytes() {
    let payload = [0xaa, 0x10, 0x27, 0x01, 0x02];
    assert_eq!(decode_scaled_int16_le(&payload, 1), Ok(10000));
    assert_eq!(decode_scaled_int16_le(&payload, 3), Ok(0x0201));
    assert_eq!(decode_scaled_int16_le(&payload, 4), Err(DecodeError::Truncated));
    assert_eq!(decode_scaled_int16_le(&payload, 5), Err(DecodeError::Truncated));
    assert_eq!(decode_scaled_int16_le(&payload, 6), Err(DecodeError::Truncated));
    assert_eq!(decode_scaled_int16_le(&payload, usize::MAX), Err(DecodeError::Truncated));
}

#[test]
fn temperature_is_at_offset_zero_and_humidity_at_offset_two() {
    let payload = [0x29, 0x09, 0x88, 0x13];
    assert_eq!(parse_temperature(&payload), Ok(2345));
    assert_eq!(parse_humidity(&payload), Ok(5000));
    assert_eq!(parse_humidity(&[0x29, 0x09, 0x88]), Err(DecodeError::Truncated));
    assert_eq!(parse_temperature(&[0x29]), Err(DecodeError::Truncated));
}

#[test]
fn sensor_model_pins_uuids_and_offsets() {
    let model = SensorModel::mj_ht_v1();
    assert_eq!(model.service_uuid, "226c0000-6476-4566-7562-66734470666d");
    assert_eq!(model.temperature_uuid, "226caa55-6476-4566-7562-66734470666d");
    assert_eq!(model.humidity_uuid, "226cbb55-6476-4566-7562-66734470666d");
    assert_eq!(model.offset_of(Field::Temperature), 0);
    assert_eq!(model.offset_of(Field::Humidity), 2);
    assert_eq!(model.duplicate(), model);
}

#[test]
fn sensor_model_matches_fields_by_uuid_without_regard_to_case() {
    let model = SensorModel::mj_ht_v1();
    assert_eq!(
        model.field_of("226CAA55-6476-4566-7562-66734470666D"),
        Some(Field::Temperature)
    );
    assert_eq!(model.field_of("226cbb55-6476-4566-7562-66734470666d"), Some(Field::Humidity));
    assert_eq!(model.field_of("226c0000-6476-4566-7562-66734470666d"), None);
    assert_eq!(model.field_of(""), None);
}

#[test]
fn sensor_model_decodes_each_field_at_its_own_offset() {
    let model = SensorModel {
        service_uuid: "s".to_string(),
        temperature_uuid: "t".to_string(),
        humidity_uuid: "h".to_string(),
        temperature_offset: 1,
        humidity_offset: 0,
    };
    let payload = [0x10, 0x27, 0x00];
    assert_eq!(model.decode(Field::Humidity, &payload), Ok(10000));
    assert_eq!(model.decode(Field::Temperature, &payload), Ok(0x27));
}
