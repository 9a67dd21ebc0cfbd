//! Driver logic for the HDC302x family of humidity and temperature sensors.
//!
//! The sensor speaks a fixed protocol of 16-bit command opcodes over a two-wire
//! bus and protects every returned data word with an 8-bit checksum. This crate
//! holds that protocol as verified, transport-free logic: command encoding,
//! checksum validation, the transaction engine as a state machine driven by bus
//! outcomes, and the multi-command sequences built on it. A runner that owns
//! the bus performs the operations the state machines hand out.

pub mod checksum;
pub mod operations;
pub mod protocol;
pub mod sequence;
pub mod session;
pub mod transaction;
pub mod types;

pub use crate::checksum::checksum;
pub use crate::protocol::{
    start_sampling_command, AutoReadTarget, Command, HeaterLevel, I2cAddr, LowPowerMode,
    SampleRate,
};
pub use crate::sequence::Sequence;
pub use crate::transaction::{BusOp, Next, Outcome, Phase, Request, Transaction};
pub use crate::types::{
    Error, Hdc302x, ManufacturerId, RawDatum, RawTempAndRelHumid, SerialNumber, StatusBits,
};
