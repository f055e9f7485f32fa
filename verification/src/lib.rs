//! A single-host device supervisor: a pin-lease arbiter, the bus
//! controllers that claim pins through it, and the device server that owns
//! controllers and device records.

pub mod adb;
pub mod bus;
pub mod capabilities;
pub mod config;
pub mod device;
pub mod drivers;
pub mod gpio;
pub mod rpc;
pub mod text;
pub mod uuid_text;
