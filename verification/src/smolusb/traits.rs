//! The operations a USB peripheral driver offers the device stack.

use vstd::prelude::*;

use crate::smolusb::control::{Direction, SetupPacket};

verus! {

// - Read/Write ---------------------------------------------------------------

pub trait ControlRead {
    fn read_control(&self, buffer: &mut [u8]) -> usize;
}

pub trait EndpointRead {
    fn read(&self, endpoint: u8, buffer: &mut [u8]) -> usize;
}

// These two should be one trait

pub trait EndpointWrite {
    fn write(&self, endpoint: u8, bytes: &[u8]);
}

pub trait EndpointWriteRef {
    fn write_ref(&self, endpoint: u8, bytes: &[u8]);
}

// - UsbDriverOperations ------------------------------------------------------

pub trait UsbDriverOperations {
    /// Connect
    fn connect(&self) -> u8;

    /// Disconnect
    fn disconnect(&self);

    /// Reset
    fn reset(&self) -> u8;

    /// Bus Reset
    fn bus_reset(&self) -> u8;

    /// Acknowledge the status stage of an incoming control request.
    fn ack_status_stage(&self, packet: &SetupPacket);

    fn ack(&self, endpoint: u8, direction: Direction);

    fn set_address(&self, address: u8);

    /// Stall the current control request.
    fn stall_request(&self);

    /// Set the stall state for the given endpoint address
    fn stall_endpoint_address(&self, endpoint: u8, state: bool);

    /// Stall the given IN endpoint
    fn stall_endpoint_in(&self, endpoint: u8);

    /// Stall the given OUT endpoint
    fn stall_endpoint_out(&self, endpoint: u8);

    /// Clear any halt condition on the target endpoint, and clear the data toggle bit.
    fn clear_feature_endpoint_halt(&self, endpoint_address: u8);
}

pub trait UnsafeUsbDriverOperations {
    fn set_tx_ack_active(&self);

    fn clear_tx_ack_active(&self);

    fn is_tx_ack_active(&self) -> bool;
}

// convenience alias
pub trait UsbDriver: ControlRead + EndpointRead + EndpointWrite + EndpointWriteRef + UsbDriverOperations {

}

// - AsIterator ---------------------------------------------------------------

/// A value with a fixed wire encoding.
pub trait AsByteSliceIterator {
    /// The bytes of this value on the wire.
    spec fn spec_as_bytes(&self) -> Seq<u8>;

    /// The bytes of this value on the wire.
    fn as_iter(&self) -> (r: Vec<u8>)
        ensures
            r@ == self.spec_as_bytes(),
    ;
}

// - TotalLength --------------------------------------------------------------

pub trait GetTotalLength {
    fn total_length(&self, tail_count: usize) -> usize;
}

/// A descriptor head that records the length of the whole descriptor.
pub trait SetTotalLength: Sized {
    /// The value after recording `total_length`.
    spec fn spec_set_total_length(self, total_length: usize) -> Self;

    fn set_total_length(&mut self, total_length: usize)
        ensures
            *final(self) == old(self).spec_set_total_length(total_length),
    ;
}

} // verus!
