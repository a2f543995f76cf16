//! The device information pass: which characteristics it reads, how each
//! value is shown, and the lines it reports.

use crate::session::ReadError;
use crate::telemetry::DecodeError;
use crate::text::{decimal, push_decimal};
use vstd::prelude::*;
use vstd::string::StringExecFns;

verus! {

/// Generic Access service.
pub const GENERIC_ACCESS: &'static str = "00001800-0000-1000-8000-00805f9b34fb";

/// Device Information service.
pub const DEVICE_INFORMATION: &'static str = "0000180a-0000-1000-8000-00805f9b34fb";

/// Battery service.
pub const BATTERY_SERVICE: &'static str = "0000180f-0000-1000-8000-00805f9b34fb";

/// Device Name characteristic.
pub const DEVICE_NAME: &'static str = "00002a00-0000-1000-8000-00805f9b34fb";

/// Appearance characteristic.
pub const APPEARANCE: &'static str = "00002a01-0000-1000-8000-00805f9b34fb";

/// Peripheral Preferred Connection Parameters characteristic.
pub const CONNECTION_PARAMETERS: &'static str = "00002a04-0000-1000-8000-00805f9b34fb";

/// Firmware Revision characteristic.
pub const FIRMWARE_REVISION: &'static str = "00002a26-0000-1000-8000-00805f9b34fb";

/// Manufacturer Name characteristic.
pub const MANUFACTURER_NAME: &'static str = "00002a29-0000-1000-8000-00805f9b34fb";

/// Battery Level characteristic.
pub const BATTERY_LEVEL: &'static str = "00002a19-0000-1000-8000-00805f9b34fb";

/// How the value of an information field is shown.
#[derive(Clone, Copy, Debug, PartialEq, Eq, Structural)]
pub enum Rendering {
    /// As text, with whatever is not UTF-8 replaced.
    Text,
    /// As the list of its bytes in decimal.
    Bytes,
    /// As its first byte in decimal, followed by a percent sign.
    Percent,
}

/// The fields of the device information pass, in the order in which the
/// pass reads them.
#[derive(Clone, Copy, Debug, PartialEq, Eq, Structural)]
pub enum InfoField {
    DeviceName,
    Appearance,
    ConnectionParameters,
    FirmwareVersion,
    ManufacturerName,
    BatteryLevel,
}

impl InfoField {
    /// The first field of the pass.
    pub open spec fn spec_first() -> InfoField {
        InfoField::DeviceName
    }

    #[verifier::when_used_as_spec(spec_first)]
    pub fn first() -> (field: InfoField)
        ensures
            field == Self::spec_first(),
    {
        InfoField::DeviceName
    }

    /// The field that the pass reads after this one.
    pub open spec fn spec_next(self) -> Option<InfoField> {
        match self {
            InfoField::DeviceName => Some(InfoField::Appearance),
            InfoField::Appearance => Some(InfoField::ConnectionParameters),
            InfoField::ConnectionParameters => Some(InfoField::FirmwareVersion),
            InfoField::FirmwareVersion => Some(InfoField::ManufacturerName),
            InfoField::ManufacturerName => Some(InfoField::BatteryLevel),
            InfoField::BatteryLevel => None,
        }
    }

    #[verifier::when_used_as_spec(spec_next)]
    pub fn next(self) -> (field: Option<InfoField>)
        ensures
            field == self.spec_next(),
    {
        match self {
            InfoField::DeviceName => Some(InfoField::Appearance),
            InfoField::Appearance => Some(InfoField::ConnectionParameters),
            InfoField::ConnectionParameters => Some(InfoField::FirmwareVersion),
            InfoField::FirmwareVersion => Some(InfoField::ManufacturerName),
            InfoField::ManufacturerName => Some(InfoField::BatteryLevel),
            InfoField::BatteryLevel => None,
        }
    }

    /// The name under which the field is reported.
    pub open spec fn spec_label(self) -> Seq<char> {
        match self {
            InfoField::DeviceName => "Device Name"@,
            InfoField::Appearance => "Appearance"@,
            InfoField::ConnectionParameters => "Peripheral Preferred Connection Parameters"@,
            InfoField::FirmwareVersion => "Firmware Version"@,
            InfoField::ManufacturerName => "Manufacturer Name"@,
            InfoField::BatteryLevel => "Battery Level"@,
        }
    }

    pub fn label(self) -> (label: &'static str)
        ensures
            label@ == self.spec_label(),
    {
        match self {
            InfoField::DeviceName => "Device Name",
            InfoField::Appearance => "Appearance",
            InfoField::ConnectionParameters => "Peripheral Preferred Connection Parameters",
            InfoField::FirmwareVersion => "Firmware Version",
            InfoField::ManufacturerName => "Manufacturer Name",
            InfoField::BatteryLevel => "Battery Level",
        }
    }

    /// The service that holds the field.
    pub open spec fn spec_service_uuid(self) -> Seq<char> {
        match self {
            InfoField::DeviceName => GENERIC_ACCESS@,
            InfoField::Appearance => GENERIC_ACCESS@,
            InfoField::ConnectionParameters => GENERIC_ACCESS@,
            InfoField::FirmwareVersion => DEVICE_INFORMATION@,
            InfoField::ManufacturerName => DEVICE_INFORMATION@,
            InfoField::BatteryLevel => BATTERY_SERVICE@,
        }
    }

    pub fn service_uuid(self) -> (uuid: &'static str)
        ensures
            uuid@ == self.spec_service_uuid(),
    {
        match self {
            InfoField::DeviceName => GENERIC_ACCESS,
            InfoField::Appearance => GENERIC_ACCESS,
            InfoField::ConnectionParameters => GENERIC_ACCESS,
            InfoField::FirmwareVersion => DEVICE_INFORMATION,
            InfoField::ManufacturerName => DEVICE_INFORMATION,
            InfoField::BatteryLevel => BATTERY_SERVICE,
        }
    }

    /// The characteristic that holds the field.
    pub open spec fn spec_characteristic_uuid(self) -> Seq<char> {
        match self {
            InfoField::DeviceName => DEVICE_NAME@,
            InfoField::Appearance => APPEARANCE@,
            InfoField::ConnectionParameters => CONNECTION_PARAMETERS@,
            InfoField::FirmwareVersion => FIRMWARE_REVISION@,
            InfoField::ManufacturerName => MANUFACTURER_NAME@,
            InfoField::BatteryLevel => BATTERY_LEVEL@,
        }
    }

    pub fn characteristic_uuid(self) -> (uuid: &'static str)
        ensures
            uuid@ == self.spec_characteristic_uuid(),
    {
        match self {
            InfoField::DeviceName => DEVICE_NAME,
            InfoField::Appearance => APPEARANCE,
            InfoField::ConnectionParameters => CONNECTION_PARAMETERS,
            InfoField::FirmwareVersion => FIRMWARE_REVISION,
            InfoField::ManufacturerName => MANUFACTURER_NAME,
            InfoField::BatteryLevel => BATTERY_LEVEL,
        }
    }

    /// How the value of the field is shown.
    pub open spec fn spec_rendering(self) -> Rendering {
        match self {
            InfoField::DeviceName => Rendering::Text,
            InfoField::Appearance => Rendering::Bytes,
            InfoField::ConnectionParameters => Rendering::Bytes,
            InfoField::FirmwareVersion => Rendering::Text,
            InfoField::ManufacturerName => Rendering::Text,
            InfoField::BatteryLevel => Rendering::Percent,
        }
    }

    #[verifier::when_used_as_spec(spec_rendering)]
    pub fn rendering(self) -> (rendering: Rendering)
        ensures
            rendering == self.spec_rendering(),
    {
        match self {
            InfoField::DeviceName => Rendering::Text,
            InfoField::Appearance => Rendering::Bytes,
            InfoField::ConnectionParameters => Rendering::Bytes,
            InfoField::FirmwareVersion => Rendering::Text,
            InfoField::ManufacturerName => Rendering::Text,
            InfoField::BatteryLevel => Rendering::Percent,
        }
    }
}

/// How the read of one information field ended.
#[derive(Clone, Debug, PartialEq, Eq)]
pub enum InfoOutcome {
    /// The value that was read.
    Value(Vec<u8>),
    /// The peripheral has no such characteristic.
    Missing,
    /// The read failed.
    Failed(ReadError),
}

/// The decimal numbers of `bytes`, separated by a comma and a space.
pub open spec fn joined(bytes: Seq<u8>) -> Seq<char>
    decreases bytes.len(),
{
    if bytes.len() == 0 {
        Seq::empty()
    } else if bytes.len() == 1 {
        decimal(bytes[0] as nat)
    } else {
        joined(bytes.drop_last()) + seq![',', ' '] + decimal(bytes.last() as nat)
    }
}

/// `bytes` as a list in square brackets.
pub open spec fn byte_list(bytes: Seq<u8>) -> Seq<char> {
    seq!['['] + joined(bytes) + seq![']']
}

/// The text that `String::from_utf8_lossy` makes of `bytes`.
pub uninterp spec fn utf8_lossy(bytes: Seq<u8>) -> Seq<char>;

/// Converts bytes to text with `String::from_utf8_lossy`: valid UTF-8 is
/// decoded, every ill-formed sequence becomes the replacement character.
/// The contract only names the result.
#[verifier::external_body]
fn lossy_text(bytes: &[u8]) -> (text: String)
    ensures
        text@ == utf8_lossy(bytes@),
{
    String::from_utf8_lossy(bytes).into_owned()
}

/// A byte in decimal, followed by a percent sign.
pub fn percent_text(n: u8) -> (text: String)
    ensures
        text@ == decimal(n as nat).push('%'),
{
    let mut text = String::new();
    push_decimal(&mut text, n as u64);
    proof {
        reveal_strlit("%");
    }
    text.append("%");
    assert(text@ =~= decimal(n as nat).push('%'));
    text
}

/// The bytes as a list of decimal numbers in square brackets.
pub fn byte_list_text(bytes: &[u8]) -> (text: String)
    ensures
        text@ == byte_list(bytes@),
{
    proof {
        reveal_strlit("[");
        reveal_strlit("]");
        reveal_strlit(", ");
    }
    let mut text = String::new();
    text.append("[");
    let mut i: usize = 0;
    assert(bytes@.take(0) =~= Seq::<u8>::empty());
    assert(text@ =~= seq!['['] + joined(bytes@.take(0)));
    while i < bytes.len()
        invariant
            i <= bytes.len(),
            text@ == seq!['['] + joined(bytes@.take(i as int)),
            ", "@ == seq![',', ' '],
        decreases bytes.len() - i,
    {
        if i > 0 {
            text.append(", ");
        }
        push_decimal(&mut text, bytes[i] as u64);
        proof {
            let more = bytes@.take(i + 1);
            assert(more.drop_last() =~= bytes@.take(i as int));
            assert(text@ =~= seq!['['] + joined(more));
        }
        i = i + 1;
    }
    assert(bytes@.take(bytes@.len() as int) =~= bytes@);
    text.append("]");
    assert(text@ =~= byte_list(bytes@));
    text
}

/// The text that shows `value` as the value of `field`; a battery level
/// needs at least one byte.
pub open spec fn spec_render(field: InfoField, value: Seq<u8>) -> Result<Seq<char>, DecodeError> {
    match field.spec_rendering() {
        Rendering::Text => Ok(utf8_lossy(value)),
        Rendering::Bytes => Ok(byte_list(value)),
        Rendering::Percent => if value.len() == 0 {
            Err(DecodeError::Truncated)
        } else {
            Ok(decimal(value[0] as nat).push('%'))
        },
    }
}

/// Shows the text of a text field once the bytes have been converted.
pub fn render_with(field: InfoField, value: &[u8], text: String) -> (r: Result<String, DecodeError>)
    ensures
        match (r, spec_render_with(field, value@, text@)) {
            (Ok(shown), Ok(expected)) => shown@ == expected,
            (Err(e), Err(expected)) => e == expected,
            _ => false,
        },
{
    match field.rendering() {
        Rendering::Text => Ok(text),
        Rendering::Bytes => Ok(byte_list_text(value)),
        Rendering::Percent => {
            if value.len() == 0 {
                Err(DecodeError::Truncated)
            } else {
                Ok(percent_text(value[0]))
            }
        },
    }
}

/// `spec_render`, with the text of a text field given.
pub open spec fn spec_render_with(field: InfoField, value: Seq<u8>, text: Seq<char>) -> Result<
    Seq<char>,
    DecodeError,
> {
    match field.spec_rendering() {
        Rendering::Text => Ok(text),
        Rendering::Bytes => Ok(byte_list(value)),
        Rendering::Percent => if value.len() == 0 {
            Err(DecodeError::Truncated)
        } else {
            Ok(decimal(value[0] as nat).push('%'))
        },
    }
}

/// Shows `value` as the value of `field`.
pub fn render(field: InfoField, value: &[u8]) -> (r: Result<String, DecodeError>)
    ensures
        match (r, spec_render(field, value@)) {
            (Ok(shown), Ok(expected)) => shown@ == expected,
            (Err(e), Err(expected)) => e == expected,
            _ => false,
        },
{
    let text = match field.rendering() {
        Rendering::Text => lossy_text(value),
        _ => String::new(),
    };
    render_with(field, value, text)
}

/// Why a read failed, in words.
pub open spec fn spec_reason(error: ReadError) -> Seq<char> {
    match error {
        ReadError::NotFound(_) => "characteristic not found"@,
        ReadError::Unsupported(_) => "read not supported"@,
        ReadError::Connection(_) => "connection failed"@,
        ReadError::RetriesExhausted { .. } => "read failed after retries"@,
    }
}

pub fn reason(error: &ReadError) -> (text: &'static str)
    ensures
        text@ == spec_reason(*error),
{
    match error {
        ReadError::NotFound(_) => "characteristic not found",
        ReadError::Unsupported(_) => "read not supported",
        ReadError::Connection(_) => "connection failed",
        ReadError::RetriesExhausted { .. } => "read failed after retries",
    }
}

/// The line for a field whose value is shown as `shown`.
pub open spec fn value_line(field: InfoField, shown: Seq<char>) -> Seq<char> {
    field.spec_label() + ": "@ + shown
}

/// The line for a field that could not be read.
pub open spec fn failure_line(field: InfoField, why: Seq<char>) -> Seq<char> {
    "Failed to read "@ + field.spec_label() + ": "@ + why
}

/// The line that reports how the read of `field` ended.
pub open spec fn spec_info_line(field: InfoField, outcome: InfoOutcome) -> Seq<char> {
    match outcome {
        InfoOutcome::Value(value) => match spec_render(field, value@) {
            Ok(shown) => value_line(field, shown),
            Err(_) => failure_line(field, "value too short"@),
        },
        InfoOutcome::Missing => failure_line(field, "characteristic not found"@),
        InfoOutcome::Failed(error) => failure_line(field, spec_reason(error)),
    }
}

fn make_value_line(field: InfoField, shown: &str) -> (line: String)
    ensures
        line@ == value_line(field, shown@),
{
    let mut line = String::new();
    line.append(field.label());
    line.append(": ");
    line.append(shown);
    assert(line@ =~= value_line(field, shown@));
    line
}

fn make_failure_line(field: InfoField, why: &str) -> (line: String)
    ensures
        line@ == failure_line(field, why@),
{
    let mut line = String::new();
    line.append("Failed to read ");
    line.append(field.label());
    line.append(": ");
    line.append(why);
    assert(line@ =~= failure_line(field, why@));
    line
}

/// Writes the line that reports how the read of `field` ended.
pub fn info_line(field: InfoField, outcome: &InfoOutcome) -> (line: String)
    ensures
        line@ == spec_info_line(field, *outcome),
{
    match outcome {
        InfoOutcome::Value(value) => match render(field, value.as_slice()) {
            Ok(shown) => make_value_line(field, shown.as_str()),
            Err(_) => make_failure_line(field, "value too short"),
        },
        InfoOutcome::Missing => make_failure_line(field, "characteristic not found"),
        InfoOutcome::Failed(error) => make_failure_line(field, reason(error)),
    }
}

} // verus!
