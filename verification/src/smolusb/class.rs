//! USB device and interface classes

pub mod cdc;
pub mod cynthion;
