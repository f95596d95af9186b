//! Host-side protocol engine for controlling Razer laptops over USB HID
//! feature reports: wire values, the 90-byte packet, the device catalog,
//! and the command layer as verified decision functions.

pub mod blade;
pub mod command;
pub mod config;
pub mod descriptor;
pub mod device;
pub mod error;
pub mod feature;
pub mod packet;
pub mod settings;
pub mod types;
