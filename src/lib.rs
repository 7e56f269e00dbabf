//! Typed register access for a multi-channel T1/E1 framer/LIU.
//!
//! The device is a tree of addressable units (device, channel, timeslot),
//! each register a fixed offset with named bit-fields. Configuration is a
//! sequence of register transactions (full writes and read-modify-writes)
//! executed through a raw access provider.
pub mod access;
pub mod config;
pub mod device;
pub mod dump;
pub mod field;
pub mod handles;
pub mod registers;
pub mod transaction;
pub mod words;

pub use access::{AccessError, Bus, Call, DeviceAccess};
pub use device::{
    Channel, Device, Timeslot, CHANNEL_COUNT, CHANNEL_STRIDE, LIU_BASE, LIU_STRIDE, MAX_TIMESLOTS,
    TIMESLOT_COUNT, TIMESLOT_STRIDE,
};
pub use field::{Field, RegisterWord};
pub use handles::Register;
pub use transaction::{apply, execute, merged, Transaction};
