//! Decoding of fixed-layout sensor payloads.
//!
//! A measurement travels as a signed 16-bit little-endian integer that counts
//! hundredths of the physical unit: the bytes `10 27` are 10000 hundredths,
//! that is 100.00. The decoder hands out the count of hundredths.

use crate::gatt::{MJ_HT_V1_HUMIDITY, MJ_HT_V1_SERVICE, MJ_HT_V1_TEMPERATURE};
use crate::text::{same_uuid, uuid_matches};
use vstd::prelude::*;

verus! {

/// Why a payload could not be decoded.
#[derive(Clone, Copy, Debug, PartialEq, Eq, Structural)]
pub enum DecodeError {
    /// Fewer than two bytes are left at the offset.
    Truncated,
}

/// The signed 16-bit integer whose little-endian bytes are `low` and `high`.
pub open spec fn int16_le(low: u8, high: u8) -> int {
    let unsigned = low as int + 256 * (high as int);
    if unsigned < 32768 {
        unsigned
    } else {
        unsigned - 65536
    }
}

/// The measurement at `offset` of `bytes`, in hundredths of its unit.
pub open spec fn spec_decode_scaled_int16_le(bytes: Seq<u8>, offset: int) -> Result<
    i16,
    DecodeError,
> {
    if 0 <= offset && offset + 2 <= bytes.len() {
        Ok(int16_le(bytes[offset], bytes[offset + 1]) as i16)
    } else {
        Err(DecodeError::Truncated)
    }
}

/// Reads the two bytes at `offset` as a signed little-endian integer, the
/// measurement in hundredths of its unit.
pub fn decode_scaled_int16_le(bytes: &[u8], offset: usize) -> (r: Result<i16, DecodeError>)
    ensures
        r == spec_decode_scaled_int16_le(bytes@, offset as int),
        r matches Ok(v) ==> v as int == int16_le(bytes@[offset as int], bytes@[offset + 1]),
{
    if offset > bytes.len() || bytes.len() - offset < 2 {
        return Err(DecodeError::Truncated);
    }
    let low: i32 = bytes[offset] as i32;
    let high: i32 = bytes[offset + 1] as i32;
    let unsigned: i32 = low + 256 * high;
    if unsigned < 32768 {
        Ok(unsigned as i16)
    } else {
        Ok((unsigned - 65536) as i16)
    }
}

/// A field of a sensor reading.
#[derive(Clone, Copy, Debug, PartialEq, Eq, Structural)]
pub enum Field {
    Temperature,
    Humidity,
}

/// Where one sensor model keeps its measurements: the characteristic that
/// notifies each field, and the offset of the field in that payload. The
/// offsets differ between models, so each model pins its own.
#[derive(Clone, Debug, PartialEq, Eq)]
pub struct SensorModel {
    pub service_uuid: String,
    pub temperature_uuid: String,
    pub humidity_uuid: String,
    pub temperature_offset: usize,
    pub humidity_offset: usize,
}

impl SensorModel {
    /// The MJ_HT_V1 sensor: temperature in bytes 0 and 1 of its payload,
    /// humidity in bytes 2 and 3 of its own.
    pub fn mj_ht_v1() -> (model: Self)
        ensures
            model.is_mj_ht_v1(),
    {
        SensorModel {
            service_uuid: MJ_HT_V1_SERVICE.to_owned(),
            temperature_uuid: MJ_HT_V1_TEMPERATURE.to_owned(),
            humidity_uuid: MJ_HT_V1_HUMIDITY.to_owned(),
            temperature_offset: 0,
            humidity_offset: 2,
        }
    }

    /// The field that a notification of the characteristic `uuid` carries.
    pub open spec fn spec_field_of(self, uuid: Seq<char>) -> Option<Field> {
        if same_uuid(uuid, self.temperature_uuid@) {
            Some(Field::Temperature)
        } else if same_uuid(uuid, self.humidity_uuid@) {
            Some(Field::Humidity)
        } else {
            None
        }
    }

    pub fn field_of(&self, uuid: &str) -> (field: Option<Field>)
        ensures
            field == self.spec_field_of(uuid@),
    {
        if uuid_matches(uuid, self.temperature_uuid.as_str()) {
            Some(Field::Temperature)
        } else if uuid_matches(uuid, self.humidity_uuid.as_str()) {
            Some(Field::Humidity)
        } else {
            None
        }
    }

    /// The characteristic that notifies `field`.
    pub open spec fn spec_uuid_of(self, field: Field) -> Seq<char> {
        match field {
            Field::Temperature => self.temperature_uuid@,
            Field::Humidity => self.humidity_uuid@,
        }
    }

    pub fn uuid_of(&self, field: Field) -> (uuid: &str)
        ensures
            uuid@ == self.spec_uuid_of(field),
    {
        match field {
            Field::Temperature => self.temperature_uuid.as_str(),
            Field::Humidity => self.humidity_uuid.as_str(),
        }
    }

    /// The model is that of the MJ_HT_V1 sensor.
    pub open spec fn is_mj_ht_v1(self) -> bool {
        &&& self.service_uuid@ == MJ_HT_V1_SERVICE@
        &&& self.temperature_uuid@ == MJ_HT_V1_TEMPERATURE@
        &&& self.humidity_uuid@ == MJ_HT_V1_HUMIDITY@
        &&& self.temperature_offset == 0
        &&& self.humidity_offset == 2
    }

    /// The offset of `field` in the payload that carries it.
    pub open spec fn spec_offset_of(self, field: Field) -> usize {
        match field {
            Field::Temperature => self.temperature_offset,
            Field::Humidity => self.humidity_offset,
        }
    }

    pub fn offset_of(&self, field: Field) -> (offset: usize)
        ensures
            offset == self.spec_offset_of(field),
    {
        match field {
            Field::Temperature => self.temperature_offset,
            Field::Humidity => self.humidity_offset,
        }
    }

    /// Decodes `field` from the payload of its characteristic.
    pub fn decode(&self, field: Field, payload: &[u8]) -> (r: Result<i16, DecodeError>)
        ensures
            r == spec_decode_scaled_int16_le(payload@, self.spec_offset_of(field) as int),
    {
        decode_scaled_int16_le(payload, self.offset_of(field))
    }

    /// A copy of this model.
    pub fn duplicate(&self) -> (model: Self)
        ensures
            model == *self,
    {
        SensorModel {
            service_uuid: self.service_uuid.clone(),
            temperature_uuid: self.temperature_uuid.clone(),
            humidity_uuid: self.humidity_uuid.clone(),
            temperature_offset: self.temperature_offset,
            humidity_offset: self.humidity_offset,
        }
    }
}

/// Temperature of an MJ_HT_V1 payload, in hundredths of a degree.
pub fn parse_temperature(value: &[u8]) -> (r: Result<i16, DecodeError>)
    ensures
        r == spec_decode_scaled_int16_le(value@, 0),
{
    decode_scaled_int16_le(value, 0)
}

/// Relative humidity of an MJ_HT_V1 payload, in hundredths of a percent.
pub fn parse_humidity(value: &[u8]) -> (r: Result<i16, DecodeError>)
    ensures
        r == spec_decode_scaled_int16_le(value@, 2),
{
    decode_scaled_int16_le(value, 2)
}

/// A complete reading, each field in hundredths of its unit.
#[derive(Clone, Copy, Debug, PartialEq, Eq, Structural)]
pub struct SensorReading {
    pub temperature: i16,
    pub humidity: i16,
}

/// Decoding fails exactly on payloads that end before the second byte.
pub proof fn lemma_decode_fails_iff_truncated(bytes: Seq<u8>, offset: nat)
    ensures
        spec_decode_scaled_int16_le(bytes, offset as int) is Err <==> bytes.len() < offset + 2,
{
}

/// The decoded integer fits in sixteen bits and is negative exactly when the
/// top bit of the high byte is set.
pub proof fn lemma_int16_le_in_range(low: u8, high: u8)
    ensures
        -32768 <= int16_le(low, high) <= 32767,
        int16_le(low, high) >= 0 <==> high < 128,
{
}

} // verus!
