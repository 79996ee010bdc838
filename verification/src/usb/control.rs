//! The Setup Packet, with its fields decoded from their raw values.
//!
//! see: https://www.beyondlogic.org/usbnutshell/usb6.shtml

use vstd::prelude::*;

use crate::usb::error::ErrorKind;

verus! {

// - UsbSetupRequest ----------------------------------------------------------

#[derive(Clone, Copy, Debug, PartialEq, Eq, Structural)]
pub struct SetupPacket {
    // 0..4 Recipient: 0=Device, 1=Interface, 2=Endpoint, 3=Other, 4-31=Reserved
    // 5..6 Type: 0=Standard, 1=Class, 2=Vendor, 3=Reserved
    // 7    Data Phase Transfer Direction: 0=Host to Device, 1=Device to Host
    pub request_type: u8,
    pub request: u8,
    pub value: u16,
    pub index: u16,
    pub length: u16,
}

// - request_type -------------------------------------------------------------

#[derive(Debug, Clone, Copy, PartialEq, Eq, Structural)]
pub enum Recipient {
    Device,
    Interface,
    Endpoint,
    Other,
    Reserved,
}

impl Recipient {
    /// Decodes a recipient number: 0 to 3 name a recipient, 4 to 31 are
    /// reserved, anything larger is no recipient.
    pub fn try_from(value: u8) -> (r: core::result::Result<Recipient, ErrorKind>)
        ensures
            r == (if value == 0 {
                Ok::<Recipient, ErrorKind>(Recipient::Device)
            } else if value == 1 {
                Ok(Recipient::Interface)
            } else if value == 2 {
                Ok(Recipient::Endpoint)
            } else if value == 3 {
                Ok(Recipient::Other)
            } else if value <= 31 {
                Ok(Recipient::Reserved)
            } else {
                Err(ErrorKind::FailedConversion)
            }),
    {
        let result = match value {
            0 => Recipient::Device,
            1 => Recipient::Interface,
            2 => Recipient::Endpoint,
            3 => Recipient::Other,
            4..=31 => Recipient::Reserved,
            _ => return Err(ErrorKind::FailedConversion),
        };
        Ok(result)
    }
}

/// The recipient's number.
pub open spec fn spec_recipient_value(x: Recipient) -> u8 {
    match x {
        Recipient::Device => 0,
        Recipient::Interface => 1,
        Recipient::Endpoint => 2,
        Recipient::Other => 3,
        Recipient::Reserved => 4,
    }
}

impl Recipient {
    /// The recipient's number.
    pub fn value(&self) -> (r: u8)
        ensures
            r == spec_recipient_value(*self),
    {
        match self {
            Recipient::Device => 0,
            Recipient::Interface => 1,
            Recipient::Endpoint => 2,
            Recipient::Other => 3,
            Recipient::Reserved => 4,
        }
    }
}

#[derive(Debug, Clone, Copy, PartialEq, Eq, Structural)]
pub enum RequestType {
    Standard,
    Class,
    Vendor,
    Reserved,
}

impl RequestType {
    /// Decodes a request type number, 0 to 3.
    pub fn try_from(value: u8) -> (r: core::result::Result<RequestType, ErrorKind>)
        ensures
            r == (if value == 0 {
                Ok::<RequestType, ErrorKind>(RequestType::Standard)
            } else if value == 1 {
                Ok(RequestType::Class)
            } else if value == 2 {
                Ok(RequestType::Vendor)
            } else if value == 3 {
                Ok(RequestType::Reserved)
            } else {
                Err(ErrorKind::FailedConversion)
            }),
    {
        let result = match value {
            0 => RequestType::Standard,
            1 => RequestType::Class,
            2 => RequestType::Vendor,
            3 => RequestType::Reserved,
            _ => return Err(ErrorKind::FailedConversion),
        };
        Ok(result)
    }
}

/// The request type's number.
pub open spec fn spec_request_type_value(x: RequestType) -> u8 {
    match x {
        RequestType::Standard => 0,
        RequestType::Class => 1,
        RequestType::Vendor => 2,
        RequestType::Reserved => 3,
    }
}

impl RequestType {
    /// The request type's number.
    pub fn value(&self) -> (r: u8)
        ensures
            r == spec_request_type_value(*self),
    {
        match self {
            RequestType::Standard => 0,
            RequestType::Class => 1,
            RequestType::Vendor => 2,
            RequestType::Reserved => 3,
        }
    }
}

/// 0x80
pub const MASK_DIRECTION_IN: u8 = 0b1000_0000;

#[derive(Debug, Clone, Copy, PartialEq, Eq, Structural)]
pub enum Direction {
    HostToDevice,
    DeviceToHost,
}

impl Direction {
    /// Decodes a direction bit, 0 or 1.
    pub fn try_from(value: u8) -> (r: core::result::Result<Direction, ErrorKind>)
        ensures
            r == (if value == 0 {
                Ok::<Direction, ErrorKind>(Direction::HostToDevice)
            } else if value == 1 {
                Ok(Direction::DeviceToHost)
            } else {
                Err(ErrorKind::FailedConversion)
            }),
    {
        let result = match value {
            0 => Direction::HostToDevice,
            1 => Direction::DeviceToHost,
            _ => return Err(ErrorKind::FailedConversion),
        };
        Ok(result)
    }
}

/// The direction bit, as a number.
pub open spec fn spec_direction_value(x: Direction) -> u8 {
    match x {
        Direction::HostToDevice => 0,
        Direction::DeviceToHost => 1,
    }
}

impl Direction {
    /// The direction bit, as a number.
    pub fn value(&self) -> (r: u8)
        ensures
            r == spec_direction_value(*self),
    {
        match self {
            Direction::HostToDevice => 0,
            Direction::DeviceToHost => 1,
        }
    }
}

// - request ------------------------------------------------------------------

#[derive(Debug, Clone, Copy, PartialEq, Eq, Structural)]
pub enum Request {
    GetStatus,
    ClearFeature,
    SetFeature,
    SetAddress,
    GetDescriptor,
    SetDescriptor,
    GetConfiguration,
    SetConfiguration,
    GetInterface,
    SetInterface,
    SynchronizeFrame,
}

/// The standard request numbered `value`, if there is one.
pub open spec fn spec_request(value: u8) -> core::result::Result<Request, ErrorKind> {
    if value == 0 {
        Ok(Request::GetStatus)
    } else if value == 1 {
        Ok(Request::ClearFeature)
    } else if value == 3 {
        Ok(Request::SetFeature)
    } else if value == 5 {
        Ok(Request::SetAddress)
    } else if value == 6 {
        Ok(Request::GetDescriptor)
    } else if value == 7 {
        Ok(Request::SetDescriptor)
    } else if value == 8 {
        Ok(Request::GetConfiguration)
    } else if value == 9 {
        Ok(Request::SetConfiguration)
    } else if value == 10 {
        Ok(Request::GetInterface)
    } else if value == 11 {
        Ok(Request::SetInterface)
    } else if value == 12 {
        Ok(Request::SynchronizeFrame)
    } else {
        Err(ErrorKind::FailedConversion)
    }
}

impl Request {
    pub fn try_from(value: u8) -> (r: core::result::Result<Request, ErrorKind>)
        ensures
            r == spec_request(value),
    {
        let result = match value {
            0 => Request::GetStatus,
            1 => Request::ClearFeature,
            3 => Request::SetFeature,
            5 => Request::SetAddress,
            6 => Request::GetDescriptor,
            7 => Request::SetDescriptor,
            8 => Request::GetConfiguration,
            9 => Request::SetConfiguration,
            10 => Request::GetInterface,
            11 => Request::SetInterface,
            12 => Request::SynchronizeFrame,
            _ => return Err(ErrorKind::FailedConversion),
        };
        Ok(result)
    }
}

/// The request's number.
pub open spec fn spec_request_value(x: Request) -> u8 {
    match x {
        Request::GetStatus => 0,
        Request::ClearFeature => 1,
        Request::SetFeature => 3,
        Request::SetAddress => 5,
        Request::GetDescriptor => 6,
        Request::SetDescriptor => 7,
        Request::GetConfiguration => 8,
        Request::SetConfiguration => 9,
        Request::GetInterface => 10,
        Request::SetInterface => 11,
        Request::SynchronizeFrame => 12,
    }
}

impl Request {
    /// The request's number.
    pub fn value(&self) -> (r: u8)
        ensures
            r == spec_request_value(*self),
    {
        match self {
            Request::GetStatus => 0,
            Request::ClearFeature => 1,
            Request::SetFeature => 3,
            Request::SetAddress => 5,
            Request::GetDescriptor => 6,
            Request::SetDescriptor => 7,
            Request::GetConfiguration => 8,
            Request::SetConfiguration => 9,
            Request::GetInterface => 10,
            Request::SetInterface => 11,
            Request::SynchronizeFrame => 12,
        }
    }
}

#[derive(Debug, Clone, Copy, PartialEq, Eq, Structural)]
pub enum Feature {
    EndpointHalt,
    DeviceRemoteWakeup,
}

impl Feature {
    pub fn try_from(value: u8) -> (r: core::result::Result<Feature, ErrorKind>)
        ensures
            r == (if value == 0 {
                Ok::<Feature, ErrorKind>(Feature::EndpointHalt)
            } else if value == 1 {
                Ok(Feature::DeviceRemoteWakeup)
            } else {
                Err(ErrorKind::FailedConversion)
            }),
    {
        let result = match value {
            0 => Feature::EndpointHalt,
            1 => Feature::DeviceRemoteWakeup,
            _ => return Err(ErrorKind::FailedConversion),
        };
        Ok(result)
    }
}

/// The feature selector.
pub open spec fn spec_feature_value(x: Feature) -> u8 {
    match x {
        Feature::EndpointHalt => 0,
        Feature::DeviceRemoteWakeup => 1,
    }
}

impl Feature {
    /// The feature selector.
    pub fn value(&self) -> (r: u8)
        ensures
            r == spec_feature_value(*self),
    {
        match self {
            Feature::EndpointHalt => 0,
            Feature::DeviceRemoteWakeup => 1,
        }
    }
}

#[derive(Debug, Clone, Copy, PartialEq, Eq, Structural)]
pub enum DescriptorType {
    Device,
    Configuration,
    String,
    Interface,
    Endpoint,
    DeviceQualifier,
    OtherSpeedConfiguration,
    InterfacePower,
    OnTheGo,
    Debug,
    InterfaceAssociation,
}

/// The descriptor type numbered `value`, 1 to 11.
pub open spec fn spec_descriptor_type(value: u8) -> core::result::Result<DescriptorType, ErrorKind> {
    if value == 1 {
        Ok(DescriptorType::Device)
    } else if value == 2 {
        Ok(DescriptorType::Configuration)
    } else if value == 3 {
        Ok(DescriptorType::String)
    } else if value == 4 {
        Ok(DescriptorType::Interface)
    } else if value == 5 {
        Ok(DescriptorType::Endpoint)
    } else if value == 6 {
        Ok(DescriptorType::DeviceQualifier)
    } else if value == 7 {
        Ok(DescriptorType::OtherSpeedConfiguration)
    } else if value == 8 {
        Ok(DescriptorType::InterfacePower)
    } else if value == 9 {
        Ok(DescriptorType::OnTheGo)
    } else if value == 10 {
        Ok(DescriptorType::Debug)
    } else if value == 11 {
        Ok(DescriptorType::InterfaceAssociation)
    } else {
        Err(ErrorKind::FailedConversion)
    }
}

impl DescriptorType {
    pub fn try_from(value: u8) -> (r: core::result::Result<DescriptorType, ErrorKind>)
        ensures
            r == spec_descriptor_type(value),
    {
        let result = match value {
            1 => DescriptorType::Device,
            2 => DescriptorType::Configuration,
            3 => DescriptorType::String,
            4 => DescriptorType::Interface,
            5 => DescriptorType::Endpoint,
            6 => DescriptorType::DeviceQualifier,
            7 => DescriptorType::OtherSpeedConfiguration,
            8 => DescriptorType::InterfacePower,
            9 => DescriptorType::OnTheGo,
            10 => DescriptorType::Debug,
            11 => DescriptorType::InterfaceAssociation,
            _ => return Err(ErrorKind::FailedConversion),
        };
        Ok(result)
    }
}

/// The descriptor type's number.
pub open spec fn spec_descriptor_type_value(x: DescriptorType) -> u8 {
    match x {
        DescriptorType::Device => 1,
        DescriptorType::Configuration => 2,
        DescriptorType::String => 3,
        DescriptorType::Interface => 4,
        DescriptorType::Endpoint => 5,
        DescriptorType::DeviceQualifier => 6,
        DescriptorType::OtherSpeedConfiguration => 7,
        DescriptorType::InterfacePower => 8,
        DescriptorType::OnTheGo => 9,
        DescriptorType::Debug => 10,
        DescriptorType::InterfaceAssociation => 11,
    }
}

impl DescriptorType {
    /// The descriptor type's number.
    pub fn value(&self) -> (r: u8)
        ensures
            r == spec_descriptor_type_value(*self),
    {
        match self {
            DescriptorType::Device => 1,
            DescriptorType::Configuration => 2,
            DescriptorType::String => 3,
            DescriptorType::Interface => 4,
            DescriptorType::Endpoint => 5,
            DescriptorType::DeviceQualifier => 6,
            DescriptorType::OtherSpeedConfiguration => 7,
            DescriptorType::InterfacePower => 8,
            DescriptorType::OnTheGo => 9,
            DescriptorType::Debug => 10,
            DescriptorType::InterfaceAssociation => 11,
        }
    }
}

} // verus!
