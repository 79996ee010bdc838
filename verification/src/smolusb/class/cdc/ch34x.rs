//! The vendor requests of the WCH CH34x USB serial adapters.

use vstd::prelude::*;

verus! {

#[derive(Debug, Clone, Copy, PartialEq, Eq, Structural)]
pub enum VendorRequest {
    WriteType,  // 0x40
    ReadType,  // 0xc0
    Read,  // 0x95
    Write,  // 0x9a
    SerialInit,  // 0xa1
    ModemOut,  // 0xa4
    Version,  // 0x5f
}

/// The request number of a vendor request.
pub open spec fn spec_vendor_request_value(request: VendorRequest) -> u8 {
    match request {
        VendorRequest::WriteType => 0x40,
        VendorRequest::ReadType => 0xc0,
        VendorRequest::Read => 0x95,
        VendorRequest::Write => 0x9a,
        VendorRequest::SerialInit => 0xa1,
        VendorRequest::ModemOut => 0xa4,
        VendorRequest::Version => 0x5f,
    }
}

impl VendorRequest {
    /// The request number.
    pub fn value(&self) -> (r: u8)
        ensures
            r == spec_vendor_request_value(*self),
    {
        match self {
            VendorRequest::WriteType => 0x40,
            VendorRequest::ReadType => 0xc0,
            VendorRequest::Read => 0x95,
            VendorRequest::Write => 0x9a,
            VendorRequest::SerialInit => 0xa1,
            VendorRequest::ModemOut => 0xa4,
            VendorRequest::Version => 0x5f,
        }
    }
}

} // verus!
