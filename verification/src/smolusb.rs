//! Simple peripheral-level USB stack

pub mod class;
pub mod control;
pub mod descriptor;
pub mod device;
pub mod error;
pub mod traits;

pub use device::Speed;
pub use error::ErrorKind;

use vstd::prelude::*;

use crate::error::{GreatError, GreatResult};

verus! {

// - Endpoints ----------------------------------------------------------------

pub trait Endpoint {}

/// The control endpoint.
pub struct EndpointControl {}

impl EndpointControl {
    /// Setting the address has no effect yet.
    pub fn set_address(&self, _address: u8) {
    }
}

/// An IN endpoint.
pub struct EndpointIn {}

impl EndpointIn {
    /// Sending is not wired to the hardware yet: every buffer is reported
    /// as 32 bytes sent.
    pub fn send(&self, _buffer: &[u8]) -> (r: GreatResult<usize>)
        ensures
            r == Ok::<usize, GreatError>(32),
    {
        Ok(32)
    }
}

/// An OUT endpoint.
pub struct EndpointOut {}

} // verus!
