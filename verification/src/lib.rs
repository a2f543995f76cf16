//! Sans-I/O core of a Bluetooth Low Energy central.
//!
//! The crate holds the decisions of a BLE client and none of its radio work:
//! scan results are reconciled into a registry of devices with stable ids,
//! each session operation (connect, discover, read, subscribe, collect) is a
//! state machine that asks a driver for one radio request at a time, and
//! sensor payloads are decoded from bytes. Every function is verified against
//! the contract written at its head, but for one call into the standard
//! library in `info`, whose contract is taken on trust.
//!
//! * `device_storage`, `device_info`: the registry and its records.
//! * `gatt`: the characteristics that discovery found, and their lookup.
//! * `radio`, `retry`: requests, replies and steps; retry budgets.
//! * `session`, `notify`, `passes`: the state machines, from a single
//!   connect up to a whole pass over a sensor.
//! * `telemetry`, `info`: decoding of measurements, rendering of values.
//! * `bluetooth_manager`, `ui`: operations by device id; the menu.
//! * `text`: characters, numbers and UUID texts.

pub mod bluetooth_manager;
pub mod device_info;
pub mod device_storage;
pub mod gatt;
pub mod info;
pub mod notify;
pub mod passes;
pub mod radio;
pub mod retry;
pub mod session;
pub mod telemetry;
pub mod text;
pub mod ui;
