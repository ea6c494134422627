//! Validation of layered macropad key mappings and construction of the
//! fixed-length HID reports that program the device.

pub mod chord;
pub mod config;
pub mod consts;
pub mod keyboard;
pub mod mapping;
pub mod messages;
pub mod text;
pub mod try_map;
