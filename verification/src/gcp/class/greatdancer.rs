//! Verbs for class: Greatdancer

use vstd::prelude::*;

use crate::gcp::ClassId;

verus! {

/// Verbs for class: Greatdancer
#[derive(Debug, PartialEq, Eq, Copy, Clone, Structural)]
#[allow(non_camel_case_types)]
pub enum Greatdancer {
    // - connection / disconnection --
    /// Sets up the target port to connect to a host.
    /// Enables the target port's USB pull-ups.
    connect,
    /// Disconnects the target port from the host.
    disconnect,
    /// Causes the target device to handle a bus reset.
    bus_reset,
    // - enumeration / setup --
    /// Sets the address of the target device.
    set_address,
    /// Sets up all of the non-control endpoints for the device.
    set_up_endpoints,
    // - status & control --
    /// Reads one of the device's USB status registers.
    get_status,
    /// Reads any pending setup packets recieved on the given endpoint.
    read_setup,
    /// Stalls the endpoint with the provided address.
    stall_endpoint,
    // - data transfers --
    /// Sends the provided data on the given IN endpoint.
    send_on_endpoint,
    /// Cleans up any complete transfers on the given endpoint.
    clean_up_transfer,
    /// Begins listening for data on the given OUT endpoint.
    start_nonblocking_read,
    /// Returns the data read after a given non-blocking read.
    finish_nonblocking_read,
    /// Returns the amount of data read after a given non-blocking read.
    get_nonblocking_data_length,
    /// Unsupported verb
    unsupported(u32),
}

/// The greatdancer verb numbered `verb`.
pub open spec fn spec_greatdancer_verb(verb: u32) -> Greatdancer {
    if verb == 0x0 {
        Greatdancer::connect
    } else if verb == 0x1 {
        Greatdancer::disconnect
    } else if verb == 0x2 {
        Greatdancer::bus_reset
    } else if verb == 0x3 {
        Greatdancer::set_address
    } else if verb == 0x4 {
        Greatdancer::set_up_endpoints
    } else if verb == 0x5 {
        Greatdancer::get_status
    } else if verb == 0x6 {
        Greatdancer::read_setup
    } else if verb == 0x7 {
        Greatdancer::stall_endpoint
    } else if verb == 0x8 {
        Greatdancer::send_on_endpoint
    } else if verb == 0x9 {
        Greatdancer::clean_up_transfer
    } else if verb == 0x10 {
        Greatdancer::start_nonblocking_read
    } else if verb == 0x11 {
        Greatdancer::finish_nonblocking_read
    } else if verb == 0x12 {
        Greatdancer::get_nonblocking_data_length
    } else {
        Greatdancer::unsupported(verb)
    }
}

impl Greatdancer {
    pub fn from(verb: u32) -> (r: Greatdancer)
        ensures
            r == spec_greatdancer_verb(verb),
    {
        match verb {
            0x0 => Greatdancer::connect,
            0x1 => Greatdancer::disconnect,
            0x2 => Greatdancer::bus_reset,
            0x3 => Greatdancer::set_address,
            0x4 => Greatdancer::set_up_endpoints,
            0x5 => Greatdancer::get_status,
            0x6 => Greatdancer::read_setup,
            0x7 => Greatdancer::stall_endpoint,
            0x8 => Greatdancer::send_on_endpoint,
            0x9 => Greatdancer::clean_up_transfer,
            0x10 => Greatdancer::start_nonblocking_read,
            0x11 => Greatdancer::finish_nonblocking_read,
            0x12 => Greatdancer::get_nonblocking_data_length,
            _ => Greatdancer::unsupported(verb),
        }
    }
}

/// Dispatch
pub struct Dispatch {}

impl Dispatch {
    pub fn new() -> Self {
        Self {}
    }

    /// Answers a greatdancer verb; no verb has a response.
    pub fn handle(&self, _class: ClassId, verb: Greatdancer) -> (r: Vec<u8>)
        ensures
            r@.len() == 0,
    {
        match verb {
            Greatdancer::connect => connect(),
            _ => Vec::new(),
        }
    }
}

// - verb implementations -----------------------------------------------------

pub fn connect() -> (r: Vec<u8>)
    ensures
        r@.len() == 0,
{
    Vec::new()
}

} // verus!
