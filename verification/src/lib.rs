//! USB device stack, descriptor encodings and Great Communications Protocol
//! command handling for the Cynthion / LUNA SoC firmware.

pub mod bytes;
pub mod error;

pub mod smolusb;
pub mod timer;
pub mod usb;

pub mod firmware;
pub mod gcp;
pub mod class;

pub mod benchmark;
pub mod cdc_serial;
pub mod firmware_app;
pub mod speed_test;
