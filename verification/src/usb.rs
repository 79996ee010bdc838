//! USB control types decoded from raw field values, and the vendor
//! requests the firmware defines on top of the standard ones.

pub mod control;
pub mod error;
pub mod vendor;

pub use error::ErrorKind;
