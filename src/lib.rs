//! Host-side library for a battery/charger management device that reports
//! over USB interrupt transfers.
//!
//! - `codec`: the fixed-size big-endian measurement record and the tagged
//!   frame around it, with exact round trips between bytes and values.
//! - `flags`: the status, fault and prochot registers, every bit kept, and
//!   the MOS switch state.
//! - `units`: ADC codes to physical values and back, in integers: milli-units
//!   for the charger channels, centidegrees for the temperature sensors.
//! - `data_models`: the snapshot that one record stands for, and the record
//!   that a snapshot is sent as.
//! - `usb_types`: commands, events and the session's error taxonomy.
//! - `discovery`: choosing the device and the endpoint roles.
//! - `session`: the device session as a state machine; the host performs
//!   the actions it returns and feeds back their outcomes.
pub mod flags;
pub mod codec;
pub mod units;
pub mod data_models;
pub mod usb_types;
pub mod discovery;
pub mod session;
