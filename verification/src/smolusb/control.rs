//! Types for working with the SETUP packet.

use vstd::prelude::*;

use crate::bytes::{le16, u16_from_le, u16_le, u16_to_le};
use crate::smolusb::error::ErrorKind;

verus! {

// - SetupPacket --------------------------------------------------------------

/// The eight bytes of a USB control request.
#[derive(Clone, Copy, Debug, PartialEq, Eq, Structural)]
pub struct SetupPacket {
    // 0..4 Recipient: 0=Device, 1=Interface, 2=Endpoint, 3=Other, 4-31=Reserved
    // 5..6 Type: 0=Standard, 1=Class, 2=Vendor, 3=Reserved
    // 7    Data Phase Transfer Direction: 0=Host to Device, 1=Device to Host
    pub request_type: u8,
    // values 0..=9 are standard, others are class or vendor
    pub request: u8,
    pub value: u16,
    pub index: u16,
    pub length: u16,
}

/// The packet encoded in the eight wire bytes `b` (multi-byte fields are
/// little-endian).
pub open spec fn spec_setup_packet(b: Seq<u8>) -> SetupPacket {
    SetupPacket {
        request_type: b[0],
        request: b[1],
        value: le16(b[2], b[3]),
        index: le16(b[4], b[5]),
        length: le16(b[6], b[7]),
    }
}

impl SetupPacket {
    /// The eight wire bytes of this packet.
    pub open spec fn spec_bytes(self) -> Seq<u8> {
        seq![self.request_type, self.request] + u16_le(self.value) + u16_le(self.index) + u16_le(
            self.length,
        )
    }

    /// Decodes a SETUP packet from the eight bytes read from the control
    /// endpoint. Every eight-byte buffer is a packet.
    pub fn try_from(buffer: [u8; 8]) -> (r: Result<SetupPacket, ErrorKind>)
        ensures
            r == Ok::<SetupPacket, ErrorKind>(spec_setup_packet(buffer@)),
    {
        Ok(SetupPacket {
            request_type: buffer[0],
            request: buffer[1],
            value: u16_from_le(buffer[2], buffer[3]),
            index: u16_from_le(buffer[4], buffer[5]),
            length: u16_from_le(buffer[6], buffer[7]),
        })
    }

    /// The eight wire bytes of this packet.
    pub fn as_bytes(&self) -> (r: [u8; 8])
        ensures
            r@ == self.spec_bytes(),
    {
        let (v0, v1) = u16_to_le(self.value);
        let (i0, i1) = u16_to_le(self.index);
        let (l0, l1) = u16_to_le(self.length);
        let r = [self.request_type, self.request, v0, v1, i0, i1, l0, l1];
        assert(r@ =~= self.spec_bytes());
        r
    }

    pub fn request_type(&self) -> (r: RequestType)
        ensures
            r == spec_request_type(self.request_type),
    {
        RequestType::from(self.request_type)
    }

    pub fn recipient(&self) -> (r: Recipient)
        ensures
            r == spec_recipient(self.request_type),
    {
        Recipient::from(self.request_type)
    }

    pub fn direction(&self) -> (r: Direction)
        ensures
            r == spec_direction(self.request_type),
    {
        Direction::from(self.request_type)
    }

    pub fn request(&self) -> (r: Result<Request, ErrorKind>)
        ensures
            r == spec_request(self.request),
    {
        Request::try_from(self.request)
    }
}

/// Encoding a packet and decoding the bytes gives the packet back.
pub proof fn lemma_setup_packet_decode_encode(p: SetupPacket)
    ensures
        p.spec_bytes().len() == 8,
        spec_setup_packet(p.spec_bytes()) == p,
{
}

/// Decoding eight bytes and encoding the packet gives the bytes back.
pub proof fn lemma_setup_packet_encode_decode(b: Seq<u8>)
    requires
        b.len() == 8,
    ensures
        spec_setup_packet(b).spec_bytes() == b,
{
    crate::bytes::lemma_le16_roundtrip(b[2], b[3]);
    crate::bytes::lemma_le16_roundtrip(b[4], b[5]);
    crate::bytes::lemma_le16_roundtrip(b[6], b[7]);
    assert(spec_setup_packet(b).spec_bytes() =~= b);
}

// - SetupPacket.request_type -------------------------------------------------

#[derive(Debug, Clone, Copy, PartialEq, Eq, Structural)]
pub enum Recipient {
    Device,
    Interface,
    Endpoint,
    Other,
    Reserved,
}

/// The recipient named by bits 0..4 of a request type.
pub open spec fn spec_recipient(value: u8) -> Recipient {
    let bits = value % 32;
    if bits == 0 {
        Recipient::Device
    } else if bits == 1 {
        Recipient::Interface
    } else if bits == 2 {
        Recipient::Endpoint
    } else if bits == 3 {
        Recipient::Other
    } else {
        Recipient::Reserved
    }
}

impl Recipient {
    pub fn from(value: u8) -> (r: Recipient)
        ensures
            r == spec_recipient(value),
    {
        let bits = value & 0b0001_1111;
        assert(value & 0b0001_1111 == value % 32) by (bit_vector);
        match bits {
            0 => Recipient::Device,
            1 => Recipient::Interface,
            2 => Recipient::Endpoint,
            3 => Recipient::Other,
            _ => Recipient::Reserved,
        }
    }
}

/// The recipient's number.
pub open spec fn spec_recipient_value(x: Recipient) -> u8 {
    match x {
        Recipient::Device => 0,
        Recipient::Interface => 1,
        Recipient::Endpoint => 2,
        Recipient::Other => 3,
        Recipient::Reserved => 4,
    }
}

impl Recipient {
    /// The recipient's number.
    pub fn value(&self) -> (r: u8)
        ensures
            r == spec_recipient_value(*self),
    {
        match self {
            Recipient::Device => 0,
            Recipient::Interface => 1,
            Recipient::Endpoint => 2,
            Recipient::Other => 3,
            Recipient::Reserved => 4,
        }
    }
}

#[derive(Debug, Clone, Copy, PartialEq, Eq, Structural)]
pub enum RequestType {
    Standard,
    Class,
    Vendor,
    Reserved,
}

/// The request type named by bits 5..6 of a request type byte.
pub open spec fn spec_request_type(value: u8) -> RequestType {
    let bits = (value / 32) % 4;
    if bits == 0 {
        RequestType::Standard
    } else if bits == 1 {
        RequestType::Class
    } else if bits == 2 {
        RequestType::Vendor
    } else {
        RequestType::Reserved
    }
}

impl RequestType {
    pub fn from(value: u8) -> (r: RequestType)
        ensures
            r == spec_request_type(value),
    {
        let bits = (value >> 5) & 0b0000_0011;
        assert((value >> 5) & 0b0000_0011 == (value / 32) % 4) by (bit_vector);
        match bits {
            0 => RequestType::Standard,
            1 => RequestType::Class,
            2 => RequestType::Vendor,
            _ => RequestType::Reserved,
        }
    }
}

/// The request type's number.
pub open spec fn spec_request_type_value(x: RequestType) -> u8 {
    match x {
        RequestType::Standard => 0,
        RequestType::Class => 1,
        RequestType::Vendor => 2,
        RequestType::Reserved => 3,
    }
}

impl RequestType {
    /// The request type's number.
    pub fn value(&self) -> (r: u8)
        ensures
            r == spec_request_type_value(*self),
    {
        match self {
            RequestType::Standard => 0,
            RequestType::Class => 1,
            RequestType::Vendor => 2,
            RequestType::Reserved => 3,
        }
    }
}

/// USB traffic direction
#[derive(Debug, Clone, Copy, PartialEq, Eq, Structural)]
pub enum Direction {
    /// Host to device (OUT)
    HostToDevice,
    /// Device to host (IN)
    DeviceToHost,
}

/// The direction named by bit 7 of a request type or endpoint address.
pub open spec fn spec_direction(value: u8) -> Direction {
    if value < 128 {
        Direction::HostToDevice
    } else {
        Direction::DeviceToHost
    }
}

impl Direction {
    pub fn from(value: u8) -> (r: Direction)
        ensures
            r == spec_direction(value),
    {
        assert((value & 0b1000_0000 == 0) == (value < 128)) by (bit_vector);
        if (value & 0b1000_0000) == 0 {
            Direction::HostToDevice
        } else {
            Direction::DeviceToHost
        }
    }

}

/// The direction bit, in place in a request type or endpoint address.
pub open spec fn spec_direction_value(x: Direction) -> u8 {
    match x {
        Direction::HostToDevice => 0x00,
        Direction::DeviceToHost => 0x80,
    }
}

impl Direction {
    /// The direction bit, in place in a request type or endpoint address.
    pub fn value(&self) -> (r: u8)
        ensures
            r == spec_direction_value(*self),
    {
        match self {
            Direction::HostToDevice => 0x00,
            Direction::DeviceToHost => 0x80,
        }
    }
}

// - SetupPacket.request ------------------------------------------------------

#[derive(Debug, Clone, Copy, PartialEq, Eq, Structural)]
pub enum Request {
    GetStatus,
    ClearFeature,
    SetFeature,
    SetAddress,
    GetDescriptor,
    SetDescriptor,
    GetConfiguration,
    SetConfiguration,
    GetInterface,
    SetInterface,
    SynchronizeFrame,
    ClassOrVendor(u8),
}

/// The request with number `value`: the standard requests by their numbers,
/// anything from 13 up as class or vendor, and no request for 2 and 4.
pub open spec fn spec_request(value: u8) -> Result<Request, ErrorKind> {
    if value == 0 {
        Ok(Request::GetStatus)
    } else if value == 1 {
        Ok(Request::ClearFeature)
    } else if value == 3 {
        Ok(Request::SetFeature)
    } else if value == 5 {
        Ok(Request::SetAddress)
    } else if value == 6 {
        Ok(Request::GetDescriptor)
    } else if value == 7 {
        Ok(Request::SetDescriptor)
    } else if value == 8 {
        Ok(Request::GetConfiguration)
    } else if value == 9 {
        Ok(Request::SetConfiguration)
    } else if value == 10 {
        Ok(Request::GetInterface)
    } else if value == 11 {
        Ok(Request::SetInterface)
    } else if value == 12 {
        Ok(Request::SynchronizeFrame)
    } else if value >= 13 {
        Ok(Request::ClassOrVendor(value))
    } else {
        Err(ErrorKind::FailedConversion)
    }
}

impl Request {
    pub fn try_from(value: u8) -> (r: Result<Request, ErrorKind>)
        ensures
            r == spec_request(value),
            r is Err <==> (value == 2 || value == 4),
    {
        let result = match value {
            0 => Request::GetStatus,
            1 => Request::ClearFeature,
            3 => Request::SetFeature,
            5 => Request::SetAddress,
            6 => Request::GetDescriptor,
            7 => Request::SetDescriptor,
            8 => Request::GetConfiguration,
            9 => Request::SetConfiguration,
            10 => Request::GetInterface,
            11 => Request::SetInterface,
            12 => Request::SynchronizeFrame,
            13..=255 => Request::ClassOrVendor(value),
            _ => return Err(ErrorKind::FailedConversion),
        };
        Ok(result)
    }
}

#[derive(Debug, Clone, Copy, PartialEq, Eq, Structural)]
pub enum Feature {
    EndpointHalt,
    DeviceRemoteWakeup,
}

/// The feature selector.
pub open spec fn spec_feature_value(x: Feature) -> u8 {
    match x {
        Feature::EndpointHalt => 0,
        Feature::DeviceRemoteWakeup => 1,
    }
}

impl Feature {
    /// The feature selector.
    pub fn value(&self) -> (r: u8)
        ensures
            r == spec_feature_value(*self),
    {
        match self {
            Feature::EndpointHalt => 0,
            Feature::DeviceRemoteWakeup => 1,
        }
    }
}

/// The feature selector `value`, if it names one.
pub open spec fn spec_feature(value: u16) -> Result<Feature, ErrorKind> {
    if value == 0 {
        Ok(Feature::EndpointHalt)
    } else if value == 1 {
        Ok(Feature::DeviceRemoteWakeup)
    } else {
        Err(ErrorKind::FailedConversion)
    }
}

impl Feature {
    pub fn try_from(value: u16) -> (r: Result<Feature, ErrorKind>)
        ensures
            r == spec_feature(value),
    {
        let result = match value {
            0 => Feature::EndpointHalt,
            1 => Feature::DeviceRemoteWakeup,
            _ => return Err(ErrorKind::FailedConversion),
        };
        Ok(result)
    }
}

} // verus!
