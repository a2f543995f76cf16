//! The console front end without its console: what the menu shows, what
//! each line entered means, and how devices are listed.

use crate::device_info::BluetoothDevice;
use crate::device_storage::{lists, DeviceStorage};
use crate::text::{
    decimal,
    has_substring,
    parse_decimal,
    push_decimal,
    push_signed_decimal,
    signed_decimal,
    spec_parse_decimal,
    trim_line,
    trimmed,
};
use vstd::prelude::*;
use vstd::string::StringExecFns;

verus! {

/// What the user asks for.
#[derive(Clone, Copy, Debug, PartialEq, Eq, Structural)]
pub enum Command {
    Scan,
    ScanForSensors,
    ListDevices,
    ListSensors,
    ListAvailableInfo,
    RetrieveDeviceInfo,
    RetrieveTemperatureAndHumidity,
    ReadSensorInformation,
    Connect,
    Disconnect,
    DiscoverServices,
    ReadSensor,
    Exit,
    /// The number stands for no entry of the menu.
    Invalid,
}

/// The command behind each number of the menu.
pub open spec fn spec_command_for(choice: u8) -> Command {
    if choice == 1 {
        Command::Scan
    } else if choice == 2 {
        Command::ScanForSensors
    } else if choice == 3 {
        Command::ListDevices
    } else if choice == 4 {
        Command::ListSensors
    } else if choice == 5 {
        Command::ListAvailableInfo
    } else if choice == 6 {
        Command::RetrieveDeviceInfo
    } else if choice == 7 {
        Command::RetrieveTemperatureAndHumidity
    } else if choice == 8 {
        Command::ReadSensorInformation
    } else if choice == 9 {
        Command::Connect
    } else if choice == 10 {
        Command::Disconnect
    } else if choice == 11 {
        Command::DiscoverServices
    } else if choice == 12 {
        Command::ReadSensor
    } else if choice == 20 {
        Command::Exit
    } else {
        Command::Invalid
    }
}

/// Whether a command is carried out on one device, so that the user must
/// be asked for its id.
pub open spec fn spec_needs_device(command: Command) -> bool {
    match command {
        Command::ListAvailableInfo => true,
        Command::RetrieveDeviceInfo => true,
        Command::RetrieveTemperatureAndHumidity => true,
        Command::ReadSensorInformation => true,
        Command::Connect => true,
        Command::Disconnect => true,
        Command::DiscoverServices => true,
        Command::ReadSensor => true,
        _ => false,
    }
}

impl Command {
    /// The number under which the menu offers the command; 0 for `Invalid`,
    /// which the menu does not offer.
    pub open spec fn spec_number(self) -> u8 {
        match self {
            Command::Scan => 1,
            Command::ScanForSensors => 2,
            Command::ListDevices => 3,
            Command::ListSensors => 4,
            Command::ListAvailableInfo => 5,
            Command::RetrieveDeviceInfo => 6,
            Command::RetrieveTemperatureAndHumidity => 7,
            Command::ReadSensorInformation => 8,
            Command::Connect => 9,
            Command::Disconnect => 10,
            Command::DiscoverServices => 11,
            Command::ReadSensor => 12,
            Command::Exit => 20,
            Command::Invalid => 0,
        }
    }

    #[verifier::when_used_as_spec(spec_number)]
    pub fn number(self) -> (number: u8)
        ensures
            number == self.spec_number(),
    {
        match self {
            Command::Scan => 1,
            Command::ScanForSensors => 2,
            Command::ListDevices => 3,
            Command::ListSensors => 4,
            Command::ListAvailableInfo => 5,
            Command::RetrieveDeviceInfo => 6,
            Command::RetrieveTemperatureAndHumidity => 7,
            Command::ReadSensorInformation => 8,
            Command::Connect => 9,
            Command::Disconnect => 10,
            Command::DiscoverServices => 11,
            Command::ReadSensor => 12,
            Command::Exit => 20,
            Command::Invalid => 0,
        }
    }

    /// The words with which the menu offers the command.
    pub open spec fn spec_label(self) -> Seq<char> {
        match self {
            Command::Scan => "Scan"@,
            Command::ScanForSensors => "Scan for MJ_HT_V1 devices"@,
            Command::ListDevices => "List devices"@,
            Command::ListSensors => "List MJ_HT_V1 devices"@,
            Command::ListAvailableInfo => "Retrieve config info"@,
            Command::RetrieveDeviceInfo => "Retrieve detailed info"@,
            Command::RetrieveTemperatureAndHumidity => "Retrieve temperature and humidity data"@,
            Command::ReadSensorInformation => "Retrieve all data"@,
            Command::Connect => "Connect to device"@,
            Command::Disconnect => "Disconnect from device"@,
            Command::DiscoverServices => "Discover services"@,
            Command::ReadSensor => "Read characteristic"@,
            Command::Exit => "Exit"@,
            Command::Invalid => "Invalid option. Please try again."@,
        }
    }

    pub fn label(self) -> (label: &'static str)
        ensures
            label@ == self.spec_label(),
    {
        match self {
            Command::Scan => "Scan",
            Command::ScanForSensors => "Scan for MJ_HT_V1 devices",
            Command::ListDevices => "List devices",
            Command::ListSensors => "List MJ_HT_V1 devices",
            Command::ListAvailableInfo => "Retrieve config info",
            Command::RetrieveDeviceInfo => "Retrieve detailed info",
            Command::RetrieveTemperatureAndHumidity => "Retrieve temperature and humidity data",
            Command::ReadSensorInformation => "Retrieve all data",
            Command::Connect => "Connect to device",
            Command::Disconnect => "Disconnect from device",
            Command::DiscoverServices => "Discover services",
            Command::ReadSensor => "Read characteristic",
            Command::Exit => "Exit",
            Command::Invalid => "Invalid option. Please try again.",
        }
    }
}

/// The commands that the menu offers, in the order in which it shows them.
pub open spec fn spec_menu() -> Seq<Command> {
    seq![
        Command::Scan,
        Command::ScanForSensors,
        Command::ListDevices,
        Command::ListSensors,
        Command::ListAvailableInfo,
        Command::RetrieveDeviceInfo,
        Command::RetrieveTemperatureAndHumidity,
        Command::ReadSensorInformation,
        Command::Connect,
        Command::Disconnect,
        Command::DiscoverServices,
        Command::ReadSensor,
        Command::Exit,
    ]
}

/// The line with which the menu offers a command: its number, a full stop
/// and a blank, and its label.
pub open spec fn spec_menu_line(command: Command) -> Seq<char> {
    decimal(command.spec_number() as nat) + ". "@ + command.spec_label()
}

/// The line that lists a device.
pub open spec fn spec_device_line<H>(id: u32, device: BluetoothDevice<H>) -> Seq<char> {
    "ID: "@ + decimal(id as nat) + ", MAC: "@ + device.mac_address@ + ", Name: "@ + device.name@
        + ", RSSI: "@ + signed_decimal(device.spec_rssi() as int)
}

/// `lines` are the lines of the devices in `list`, one each and in order.
pub open spec fn are_lines_of<H>(lines: Seq<String>, list: Seq<(u32, &BluetoothDevice<H>)>) -> bool {
    &&& lines.len() == list.len()
    &&& forall|i: int|
        0 <= i < lines.len() ==> (#[trigger] lines[i])@ == spec_device_line(list[i].0, *list[i].1)
}

/// The number that an entered line holds, if it holds one that fits a byte.
pub open spec fn spec_parse_byte(line: Seq<char>) -> Option<u8> {
    match spec_parse_decimal(line, 255) {
        Some(n) => Some(n as u8),
        None => None,
    }
}

/// The console front end.
#[derive(Clone, Copy, Debug, PartialEq, Eq, Structural)]
pub struct UserInterface {}

impl UserInterface {
    pub fn new() -> (ui: Self)
        ensures
            ui == (UserInterface {  }),
    {
        UserInterface {  }
    }

    /// The command that the number entered at the menu stands for.
    pub fn command_for(&self, choice: u8) -> (command: Command)
        ensures
            command == spec_command_for(choice),
            command is Invalid <==> !(1 <= choice <= 12 || choice == 20),
    {
        match choice {
            1 => Command::Scan,
            2 => Command::ScanForSensors,
            3 => Command::ListDevices,
            4 => Command::ListSensors,
            5 => Command::ListAvailableInfo,
            6 => Command::RetrieveDeviceInfo,
            7 => Command::RetrieveTemperatureAndHumidity,
            8 => Command::ReadSensorInformation,
            9 => Command::Connect,
            10 => Command::Disconnect,
            11 => Command::DiscoverServices,
            12 => Command::ReadSensor,
            20 => Command::Exit,
            _ => Command::Invalid,
        }
    }

    /// Whether the user must be asked for a device id before `command`.
    pub fn needs_device(&self, command: Command) -> (r: bool)
        ensures
            r == spec_needs_device(command),
    {
        match command {
            Command::ListAvailableInfo => true,
            Command::RetrieveDeviceInfo => true,
            Command::RetrieveTemperatureAndHumidity => true,
            Command::ReadSensorInformation => true,
            Command::Connect => true,
            Command::Disconnect => true,
            Command::DiscoverServices => true,
            Command::ReadSensor => true,
            _ => false,
        }
    }

    /// The commands of the menu, in order.
    pub fn menu(&self) -> (menu: Vec<Command>)
        ensures
            menu@ == spec_menu(),
    {
        let mut menu: Vec<Command> = Vec::new();
        menu.push(Command::Scan);
        menu.push(Command::ScanForSensors);
        menu.push(Command::ListDevices);
        menu.push(Command::ListSensors);
        menu.push(Command::ListAvailableInfo);
        menu.push(Command::RetrieveDeviceInfo);
        menu.push(Command::RetrieveTemperatureAndHumidity);
        menu.push(Command::ReadSensorInformation);
        menu.push(Command::Connect);
        menu.push(Command::Disconnect);
        menu.push(Command::DiscoverServices);
        menu.push(Command::ReadSensor);
        menu.push(Command::Exit);
        assert(menu@ =~= spec_menu());
        menu
    }

    /// The line with which the menu offers `command`.
    pub fn menu_line(&self, command: Command) -> (line: String)
        ensures
            line@ == spec_menu_line(command),
    {
        let mut line = String::new();
        push_decimal(&mut line, command.number() as u64);
        line.append(". ");
        line.append(command.label());
        assert(line@ =~= spec_menu_line(command));
        line
    }

    /// The lines of the menu, one for each command that it offers.
    pub fn display_menu(&self) -> (lines: Vec<String>)
        ensures
            lines@.len() == spec_menu().len(),
            forall|i: int|
                0 <= i < lines@.len() ==> (#[trigger] lines@[i])@ == spec_menu_line(spec_menu()[i]),
    {
        let menu = self.menu();
        let mut lines: Vec<String> = Vec::new();
        let mut i: usize = 0;
        while i < menu.len()
            invariant
                i <= menu.len(),
                menu@ == spec_menu(),
                lines@.len() == i,
                forall|j: int|
                    0 <= j < i ==> (#[trigger] lines@[j])@ == spec_menu_line(spec_menu()[j]),
            decreases menu.len() - i,
        {
            lines.push(self.menu_line(menu[i]));
            i = i + 1;
        }
        lines
    }

    fn parse_byte(&self, line: &str) -> (r: Option<u8>)
        ensures
            r == spec_parse_byte(line@),
    {
        match parse_decimal(line, 255) {
            Some(n) => Some(n as u8),
            None => None,
        }
    }

    /// The menu number that the line entered holds; nothing where the line
    /// holds no number up to 255.
    pub fn get_user_choice(&self, line: &str) -> (r: Option<u8>)
        ensures
            r == spec_parse_byte(line@),
    {
        self.parse_byte(line)
    }

    /// The number of scan passes that the line entered asks for.
    pub fn get_scan_attempts(&self, line: &str) -> (r: Option<u8>)
        ensures
            r == spec_parse_byte(line@),
    {
        self.parse_byte(line)
    }

    /// The seconds of one scan pass that the line entered asks for.
    pub fn get_scan_duration(&self, line: &str) -> (r: Option<u8>)
        ensures
            r == spec_parse_byte(line@),
    {
        self.parse_byte(line)
    }

    /// The number of sensors to scan for that the line entered asks for.
    pub fn get_max_devices_to_scan(&self, line: &str) -> (r: Option<u8>)
        ensures
            r == spec_parse_byte(line@),
    {
        self.parse_byte(line)
    }

    /// The device id that the line entered holds.
    pub fn get_device_id(&self, line: &str) -> (r: Option<u32>)
        ensures
            r == spec_parse_decimal(line@, u32::MAX),
    {
        parse_decimal(line, u32::MAX)
    }

    /// The service UUID that the line entered holds: the line without the
    /// spaces at its ends.
    pub fn get_service_uuid(&self, line: &str) -> (uuid: String)
        ensures
            uuid@ == trimmed(line@),
    {
        trim_line(line).to_owned()
    }

    /// The characteristic UUID that the line entered holds: the line without
    /// the spaces at its ends.
    pub fn get_characteristic_uuid(&self, line: &str) -> (uuid: String)
        ensures
            uuid@ == trimmed(line@),
    {
        trim_line(line).to_owned()
    }

    /// The line that lists a device.
    pub fn device_line<H>(&self, id: u32, device: &BluetoothDevice<H>) -> (line: String)
        ensures
            line@ == spec_device_line(id, *device),
    {
        let mut line = String::new();
        line.append("ID: ");
        push_decimal(&mut line, id as u64);
        line.append(", MAC: ");
        line.append(device.mac_address.as_str());
        line.append(", Name: ");
        line.append(device.name.as_str());
        line.append(", RSSI: ");
        push_signed_decimal(&mut line, device.rssi() as i32);
        assert(line@ =~= spec_device_line(id, *device));
        line
    }

    fn lines_of<H>(&self, list: &Vec<(u32, &BluetoothDevice<H>)>) -> (lines: Vec<String>)
        ensures
            are_lines_of(lines@, list@),
    {
        let mut lines: Vec<String> = Vec::new();
        let mut i: usize = 0;
        while i < list.len()
            invariant
                i <= list.len(),
                lines@.len() == i,
                forall|j: int|
                    0 <= j < i ==> (#[trigger] lines@[j])@ == spec_device_line(
                        list@[j].0,
                        *list@[j].1,
                    ),
            decreases list.len() - i,
        {
            let id = list[i].0;
            let device = list[i].1;
            lines.push(self.device_line(id, device));
            i = i + 1;
        }
        lines
    }

    /// The lines that list every device of the registry, in ascending order
    /// of id.
    pub fn display_devices<H>(&self, storage: &DeviceStorage<H>) -> (lines: Vec<String>)
        ensures
            exists|list: Seq<(u32, &BluetoothDevice<H>)>|
                lists(list, storage@, |d: BluetoothDevice<H>| true) && #[trigger] are_lines_of(
                    lines@,
                    list,
                ),
    {
        let list = storage.list_devices();
        let lines = self.lines_of(&list);
        assert(are_lines_of(lines@, list@));
        lines
    }

    /// The lines that list the MJ_HT_V1 sensors of the registry, in
    /// ascending order of id.
    pub fn display_mj_ht_v1_devices<H>(&self, storage: &DeviceStorage<H>) -> (lines: Vec<String>)
        ensures
            exists|list: Seq<(u32, &BluetoothDevice<H>)>|
                lists(list, storage@, |d: BluetoothDevice<H>| has_substring(d.name@, "MJ_HT_V1"@))
                    && #[trigger] are_lines_of(lines@, list),
    {
        let list = storage.list_mj_ht_v1_devices();
        let lines = self.lines_of(&list);
        assert(are_lines_of(lines@, list@));
        lines
    }
}

/// The menu and the meaning of the numbers agree: every command that the
/// menu offers is the one that its number stands for, and every number that
/// stands for a command is offered by the menu.
pub proof fn lemma_menu_is_consistent()
    ensures
        forall|i: int|
            0 <= i < spec_menu().len() ==> spec_command_for(
                (#[trigger] spec_menu()[i]).spec_number(),
            ) == spec_menu()[i],
        forall|choice: u8|
            !(#[trigger] spec_command_for(choice) is Invalid) ==> exists|i: int|
                0 <= i < spec_menu().len() && spec_menu()[i] == spec_command_for(choice),
{
    assert forall|choice: u8| !(#[trigger] spec_command_for(choice) is Invalid) implies exists|
        i: int,
    |
        0 <= i < spec_menu().len() && spec_menu()[i] == spec_command_for(choice) by {
        let i = if choice == 20 {
            12int
        } else {
            choice - 1
        };
        assert(spec_menu()[i] == spec_command_for(choice));
    }
}

} // verus!
