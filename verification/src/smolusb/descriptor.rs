//! USB Descriptor types and their wire encodings.

use vstd::prelude::*;
use vstd::string::StrSliceExecFns;

use crate::bytes::{push_u16_le, u16_le};
use crate::smolusb::error::ErrorKind;
use crate::smolusb::traits::{AsByteSliceIterator, SetTotalLength};

verus! {

// - DescriptorType -----------------------------------------------------------

/// DescriptorType
#[derive(Copy, Clone, Debug, PartialEq, Eq, Structural)]
pub enum DescriptorType {
    Device,
    Configuration,
    String,
    Interface,
    Endpoint,
    DeviceQualifier,
    OtherSpeedConfiguration,
    InterfacePower,
    OnTheGo,
    Debug,
    InterfaceAssociation,
    Security,
    Key,
    EncryptionType,
    BinaryDeviceObjectStore,
    DeviceCapability,
    WirelessEndpointCompanion,
    SuperSpeedEndpointCompanion,
}

/// The descriptor type code of `t`.
pub open spec fn spec_descriptor_type_code(t: DescriptorType) -> u8 {
    match t {
        DescriptorType::Device => 1,
        DescriptorType::Configuration => 2,
        DescriptorType::String => 3,
        DescriptorType::Interface => 4,
        DescriptorType::Endpoint => 5,
        DescriptorType::DeviceQualifier => 6,
        DescriptorType::OtherSpeedConfiguration => 7,
        DescriptorType::InterfacePower => 8,
        DescriptorType::OnTheGo => 9,
        DescriptorType::Debug => 10,
        DescriptorType::InterfaceAssociation => 11,
        DescriptorType::Security => 12,
        DescriptorType::Key => 13,
        DescriptorType::EncryptionType => 14,
        DescriptorType::BinaryDeviceObjectStore => 15,
        DescriptorType::DeviceCapability => 16,
        DescriptorType::WirelessEndpointCompanion => 17,
        DescriptorType::SuperSpeedEndpointCompanion => 48,
    }
}

/// The descriptor type with code `value`, if there is one.
pub open spec fn spec_descriptor_type(value: u8) -> Result<DescriptorType, ErrorKind> {
    if value == 1 {
        Ok(DescriptorType::Device)
    } else if value == 2 {
        Ok(DescriptorType::Configuration)
    } else if value == 3 {
        Ok(DescriptorType::String)
    } else if value == 4 {
        Ok(DescriptorType::Interface)
    } else if value == 5 {
        Ok(DescriptorType::Endpoint)
    } else if value == 6 {
        Ok(DescriptorType::DeviceQualifier)
    } else if value == 7 {
        Ok(DescriptorType::OtherSpeedConfiguration)
    } else if value == 8 {
        Ok(DescriptorType::InterfacePower)
    } else if value == 9 {
        Ok(DescriptorType::OnTheGo)
    } else if value == 10 {
        Ok(DescriptorType::Debug)
    } else if value == 11 {
        Ok(DescriptorType::InterfaceAssociation)
    } else if value == 12 {
        Ok(DescriptorType::Security)
    } else if value == 13 {
        Ok(DescriptorType::Key)
    } else if value == 14 {
        Ok(DescriptorType::EncryptionType)
    } else if value == 15 {
        Ok(DescriptorType::BinaryDeviceObjectStore)
    } else if value == 16 {
        Ok(DescriptorType::DeviceCapability)
    } else if value == 17 {
        Ok(DescriptorType::WirelessEndpointCompanion)
    } else if value == 48 {
        Ok(DescriptorType::SuperSpeedEndpointCompanion)
    } else {
        Err(ErrorKind::FailedConversion)
    }
}

impl DescriptorType {
    pub fn try_from(value: u8) -> (r: Result<DescriptorType, ErrorKind>)
        ensures
            r == spec_descriptor_type(value),
    {
        let result = match value {
            1 => DescriptorType::Device,
            2 => DescriptorType::Configuration,
            3 => DescriptorType::String,
            4 => DescriptorType::Interface,
            5 => DescriptorType::Endpoint,
            6 => DescriptorType::DeviceQualifier,
            7 => DescriptorType::OtherSpeedConfiguration,
            8 => DescriptorType::InterfacePower,
            9 => DescriptorType::OnTheGo,
            10 => DescriptorType::Debug,
            11 => DescriptorType::InterfaceAssociation,
            12 => DescriptorType::Security,
            13 => DescriptorType::Key,
            14 => DescriptorType::EncryptionType,
            15 => DescriptorType::BinaryDeviceObjectStore,
            16 => DescriptorType::DeviceCapability,
            17 => DescriptorType::WirelessEndpointCompanion,
            48 => DescriptorType::SuperSpeedEndpointCompanion,
            _ => return Err(ErrorKind::FailedConversion),
        };
        Ok(result)
    }

    /// The descriptor type code.
    pub fn value(&self) -> (r: u8)
        ensures
            r == spec_descriptor_type_code(*self),
    {
        match self {
            DescriptorType::Device => 1,
            DescriptorType::Configuration => 2,
            DescriptorType::String => 3,
            DescriptorType::Interface => 4,
            DescriptorType::Endpoint => 5,
            DescriptorType::DeviceQualifier => 6,
            DescriptorType::OtherSpeedConfiguration => 7,
            DescriptorType::InterfacePower => 8,
            DescriptorType::OnTheGo => 9,
            DescriptorType::Debug => 10,
            DescriptorType::InterfaceAssociation => 11,
            DescriptorType::Security => 12,
            DescriptorType::Key => 13,
            DescriptorType::EncryptionType => 14,
            DescriptorType::BinaryDeviceObjectStore => 15,
            DescriptorType::DeviceCapability => 16,
            DescriptorType::WirelessEndpointCompanion => 17,
            DescriptorType::SuperSpeedEndpointCompanion => 48,
        }
    }
}

/// Decoding the code of a descriptor type gives that type back, and a code
/// decodes to a type only if it is that type's code.
pub proof fn lemma_descriptor_type_roundtrip(t: DescriptorType, value: u8)
    ensures
        spec_descriptor_type(spec_descriptor_type_code(t)) == Ok::<DescriptorType, ErrorKind>(t),
        spec_descriptor_type(value) == Ok::<DescriptorType, ErrorKind>(t)
            ==> spec_descriptor_type_code(t) == value,
{
}

// - DeviceDescriptor ---------------------------------------------------------

/// USB device descriptor
#[derive(Clone, Copy, Debug, PartialEq, Eq, Structural)]
pub struct DeviceDescriptor {
    pub _length: u8,
    pub _descriptor_type: u8,
    pub descriptor_version: u16,
    pub device_class: u8,
    pub device_subclass: u8,
    pub device_protocol: u8,
    pub max_packet_size: u8,
    pub vendor_id: u16,
    pub product_id: u16,
    pub device_version_number: u16,
    pub manufacturer_string_index: u8,
    pub product_string_index: u8,
    pub serial_string_index: u8,
    pub num_configurations: u8,
}

impl DeviceDescriptor {
    /// An 18-byte device descriptor with every other field zero.
    pub open spec fn spec_new() -> DeviceDescriptor {
        DeviceDescriptor {
            _length: 18,
            _descriptor_type: 1,
            descriptor_version: 0,
            device_class: 0,
            device_subclass: 0,
            device_protocol: 0,
            max_packet_size: 0,
            vendor_id: 0,
            product_id: 0,
            device_version_number: 0,
            manufacturer_string_index: 0,
            product_string_index: 0,
            serial_string_index: 0,
            num_configurations: 0,
        }
    }

    pub fn new() -> (r: Self)
        ensures
            r == Self::spec_new(),
    {
        Self {
            _length: 18,
            _descriptor_type: DescriptorType::Device.value(),
            descriptor_version: 0,
            device_class: 0,
            device_subclass: 0,
            device_protocol: 0,
            max_packet_size: 0,
            vendor_id: 0,
            product_id: 0,
            device_version_number: 0,
            manufacturer_string_index: 0,
            product_string_index: 0,
            serial_string_index: 0,
            num_configurations: 0,
        }
    }
}

impl Default for DeviceDescriptor {
    fn default() -> (r: Self)
        ensures
            r == Self::spec_new(),
    {
        Self::new()
    }
}

impl AsByteSliceIterator for DeviceDescriptor {
    open spec fn spec_as_bytes(&self) -> Seq<u8> {
        seq![self._length, self._descriptor_type] + u16_le(self.descriptor_version) + seq![
            self.device_class,
            self.device_subclass,
            self.device_protocol,
            self.max_packet_size,
        ] + u16_le(self.vendor_id) + u16_le(self.product_id) + u16_le(self.device_version_number)
            + seq![
            self.manufacturer_string_index,
            self.product_string_index,
            self.serial_string_index,
            self.num_configurations,
        ]
    }

    fn as_iter(&self) -> (r: Vec<u8>) {
        let mut v: Vec<u8> = Vec::new();
        v.push(self._length);
        v.push(self._descriptor_type);
        push_u16_le(&mut v, self.descriptor_version);
        v.push(self.device_class);
        v.push(self.device_subclass);
        v.push(self.device_protocol);
        v.push(self.max_packet_size);
        push_u16_le(&mut v, self.vendor_id);
        push_u16_le(&mut v, self.product_id);
        push_u16_le(&mut v, self.device_version_number);
        v.push(self.manufacturer_string_index);
        v.push(self.product_string_index);
        v.push(self.serial_string_index);
        v.push(self.num_configurations);
        assert(v@ =~= self.spec_as_bytes());
        v
    }
}

// - DeviceQualifierDescriptor ------------------------------------------------

/// USB device qualifier descriptor
#[derive(Clone, Copy, Debug, PartialEq, Eq, Structural)]
pub struct DeviceQualifierDescriptor {
    pub _length: u8,  // 10
    pub _descriptor_type: u8,  // 6 = DeviceQualifier
    pub descriptor_version: u16,
    pub device_class: u8,
    pub device_subclass: u8,
    pub device_protocol: u8,
    pub max_packet_size: u8,
    pub num_configurations: u8,
    pub reserved: u8,
}

impl DeviceQualifierDescriptor {
    /// A 10-byte device qualifier descriptor with every other field zero.
    pub open spec fn spec_new() -> DeviceQualifierDescriptor {
        DeviceQualifierDescriptor {
            _length: 10,
            _descriptor_type: 6,
            descriptor_version: 0,
            device_class: 0,
            device_subclass: 0,
            device_protocol: 0,
            max_packet_size: 0,
            num_configurations: 0,
            reserved: 0,
        }
    }

    pub fn new() -> (r: Self)
        ensures
            r == Self::spec_new(),
    {
        Self {
            _length: 10,
            _descriptor_type: DescriptorType::DeviceQualifier.value(),
            descriptor_version: 0,
            device_class: 0,
            device_subclass: 0,
            device_protocol: 0,
            max_packet_size: 0,
            num_configurations: 0,
            reserved: 0,
        }
    }
}

impl Default for DeviceQualifierDescriptor {
    fn default() -> (r: Self)
        ensures
            r == Self::spec_new(),
    {
        Self::new()
    }
}

impl AsByteSliceIterator for DeviceQualifierDescriptor {
    open spec fn spec_as_bytes(&self) -> Seq<u8> {
        seq![self._length, self._descriptor_type] + u16_le(self.descriptor_version) + seq![
            self.device_class,
            self.device_subclass,
            self.device_protocol,
            self.max_packet_size,
            self.num_configurations,
            self.reserved,
        ]
    }

    fn as_iter(&self) -> (r: Vec<u8>) {
        let mut v: Vec<u8> = Vec::new();
        v.push(self._length);
        v.push(self._descriptor_type);
        push_u16_le(&mut v, self.descriptor_version);
        v.push(self.device_class);
        v.push(self.device_subclass);
        v.push(self.device_protocol);
        v.push(self.max_packet_size);
        v.push(self.num_configurations);
        v.push(self.reserved);
        assert(v@ =~= self.spec_as_bytes());
        v
    }
}


// - ConfigurationDescriptor --------------------------------------------------

/// USB configuration descriptor
pub struct ConfigurationDescriptor {
    pub _length: u8,  // 9
    pub descriptor_type: DescriptorType,  // 2 = Configuration, 7 = OtherSpeedConfiguration
    pub _total_length: u16,
    pub _num_interfaces: u8,
    pub configuration_value: u8,
    pub configuration_string_index: u8,
    pub attributes: u8,
    pub max_power: u8,
    pub interface_descriptors: Vec<InterfaceDescriptor>,
}

/// The length the configuration header declares for a list of interfaces:
/// each interface counts its 9 header bytes and 7 bytes for each endpoint it
/// declares.
pub open spec fn spec_interfaces_length(ifaces: Seq<InterfaceDescriptor>) -> int
    decreases ifaces.len(),
{
    if ifaces.len() == 0 {
        0
    } else {
        spec_interfaces_length(ifaces.drop_last()) + 9 + 7 * (ifaces.last().endpoint_descriptors@.len()
            % 256)
    }
}

/// The bytes of a list of interfaces, each followed by its endpoints.
pub open spec fn spec_interfaces_bytes(ifaces: Seq<InterfaceDescriptor>) -> Seq<u8>
    decreases ifaces.len(),
{
    if ifaces.len() == 0 {
        Seq::empty()
    } else {
        spec_interfaces_bytes(ifaces.drop_last()) + ifaces.last().spec_bytes()
    }
}

impl ConfigurationDescriptor {
    pub const N: usize = 9;

    /// The header's total length field is defined: there is at least one
    /// interface and the declared length fits the 16-bit field.
    pub open spec fn has_total_length(&self) -> bool {
        &&& self.interface_descriptors@.len() > 0
        &&& 9 + spec_interfaces_length(self.interface_descriptors@) <= u16::MAX
    }

    /// The declared total length of the configuration.
    pub open spec fn spec_total_length(&self) -> u16 {
        (9 + spec_interfaces_length(self.interface_descriptors@)) as u16
    }

    /// The bytes of the configuration: its 9 byte header, then every
    /// interface with its endpoints.
    pub open spec fn spec_bytes(&self) -> Seq<u8> {
        seq![9u8, spec_descriptor_type_code(self.descriptor_type)] + u16_le(
            self.spec_total_length(),
        ) + seq![
            (self.interface_descriptors@.len() % 256) as u8,
            self.configuration_value,
            self.configuration_string_index,
            self.attributes,
            self.max_power,
        ] + spec_interfaces_bytes(self.interface_descriptors@)
    }

    pub fn length(&self) -> (r: u8)
        ensures
            r == 9,
    {
        9
    }

    pub fn descriptor_type(&self) -> (r: u8)
        ensures
            r == spec_descriptor_type_code(self.descriptor_type),
    {
        self.descriptor_type.value()
    }

    pub fn total_length(&self) -> (r: u16)
        requires
            self.has_total_length(),
        ensures
            r == self.spec_total_length(),
    {
        let ifaces = &self.interface_descriptors;
        let mut sum: u16 = 0;
        let mut i: usize = 0;
        while i < ifaces.len()
            invariant
                i <= ifaces@.len(),
                sum == spec_interfaces_length(ifaces@.take(i as int)),
                9 + spec_interfaces_length(ifaces@) <= u16::MAX,
            decreases ifaces@.len() - i,
        {
            proof {
                assert(ifaces@.take(i + 1).drop_last() =~= ifaces@.take(i as int));
                lemma_interfaces_length_prefix(ifaces@, i + 1);
            }
            let x = &ifaces[i];
            let term: u16 = x.length() as u16 + x.num_endpoints() as u16 * 7;
            sum = sum + term;
            i = i + 1;
        }
        assert(ifaces@.take(ifaces@.len() as int) =~= ifaces@);
        9 + sum
    }

    pub fn num_interfaces(&self) -> (r: u8)
        ensures
            r == self.interface_descriptors@.len() % 256,
    {
        (self.interface_descriptors.len() % 256) as u8
    }

    pub fn iter(&self) -> (r: ConfigurationDescriptorIterator<'_>)
        ensures
            r.spec_descriptor() == self,
            r.offset() == 0,
    {
        ConfigurationDescriptorIterator::new(self)
    }

    /// The bytes of the configuration.
    pub(crate) fn bytes(&self) -> (r: Vec<u8>)
        requires
            self.has_total_length(),
        ensures
            r@ == self.spec_bytes(),
    {
        let mut v: Vec<u8> = Vec::new();
        v.push(self.length());
        v.push(self.descriptor_type());
        push_u16_le(&mut v, self.total_length());
        v.push(self.num_interfaces());
        v.push(self.configuration_value);
        v.push(self.configuration_string_index);
        v.push(self.attributes);
        v.push(self.max_power);
        let ghost head = v@;
        let ifaces = &self.interface_descriptors;
        let mut i: usize = 0;
        while i < ifaces.len()
            invariant
                i <= ifaces@.len(),
                v@ == head + spec_interfaces_bytes(ifaces@.take(i as int)),
            decreases ifaces@.len() - i,
        {
            assert(ifaces@.take(i + 1).drop_last() =~= ifaces@.take(i as int));
            let b = ifaces[i].bytes();
            let mut j: usize = 0;
            let ghost before = v@;
            while j < b.len()
                invariant
                    j <= b@.len(),
                    v@ == before + b@.take(j as int),
                decreases b@.len() - j,
            {
                v.push(b[j]);
                j = j + 1;
                assert(v@ =~= before + b@.take(j as int));
            }
            assert(b@.take(b@.len() as int) =~= b@);
            i = i + 1;
            assert(v@ =~= head + spec_interfaces_bytes(ifaces@.take(i as int)));
        }
        assert(ifaces@.take(ifaces@.len() as int) =~= ifaces@);
        assert(v@ =~= self.spec_bytes());
        v
    }
}

/// Each interface adds its own length to the sum of a prefix.
proof fn lemma_interfaces_length_prefix(ifaces: Seq<InterfaceDescriptor>, n: int)
    requires
        0 <= n <= ifaces.len(),
    ensures
        0 <= spec_interfaces_length(ifaces.take(n)) <= spec_interfaces_length(ifaces),
    decreases ifaces.len(),
{
    if n == ifaces.len() {
        assert(ifaces.take(n) =~= ifaces);
        lemma_interfaces_length_nonneg(ifaces);
    } else {
        assert(ifaces.drop_last().take(n) =~= ifaces.take(n));
        lemma_interfaces_length_prefix(ifaces.drop_last(), n);
    }
}

proof fn lemma_interfaces_length_nonneg(ifaces: Seq<InterfaceDescriptor>)
    ensures
        spec_interfaces_length(ifaces) >= 0,
    decreases ifaces.len(),
{
    if ifaces.len() > 0 {
        lemma_interfaces_length_nonneg(ifaces.drop_last());
    }
}

enum IteratorState {
    Header,
    Body(usize),
}

/// Iterates over the bytes of a configuration descriptor.
pub struct ConfigurationDescriptorIterator<'a> {
    descriptor: &'a ConfigurationDescriptor,
    state: IteratorState,
}

impl<'a> ConfigurationDescriptorIterator<'a> {
    /// The descriptor being encoded.
    pub closed spec fn spec_descriptor(&self) -> &'a ConfigurationDescriptor {
        self.descriptor
    }

    /// The offset of the next byte, once the iterator has started.
    pub closed spec fn offset(&self) -> int {
        match self.state {
            IteratorState::Header => -1,
            IteratorState::Body(index) => index as int,
        }
    }

    pub fn new(descriptor: &'a ConfigurationDescriptor) -> (r: Self)
        ensures
            r.spec_descriptor() == descriptor,
            r.offset() == 0,
    {
        Self { descriptor, state: IteratorState::Body(0) }
    }

    /// The byte at `index` in the configuration's encoding, if it is that long.
    pub fn byte_at_offset(&self, index: usize) -> (r: Option<u8>)
        requires
            self.spec_descriptor().has_total_length(),
        ensures
            r == (if index < self.spec_descriptor().spec_bytes().len() {
                Some(self.spec_descriptor().spec_bytes()[index as int])
            } else {
                None::<u8>
            }),
    {
        let bytes = self.descriptor.bytes();
        if index < bytes.len() {
            Some(bytes[index])
        } else {
            None
        }
    }

    /// The next byte of the encoding, or `None` past its end.
    pub fn next(&mut self) -> (r: Option<u8>)
        requires
            old(self).spec_descriptor().has_total_length(),
            old(self).offset() < usize::MAX,
        ensures
            final(self).spec_descriptor() == old(self).spec_descriptor(),
            old(self).offset() >= 0 ==> final(self).offset() == old(self).offset() + 1,
            r == (if 0 <= old(self).offset() < old(self).spec_descriptor().spec_bytes().len() {
                Some(old(self).spec_descriptor().spec_bytes()[old(self).offset()])
            } else {
                None::<u8>
            }),
    {
        match self.state {
            IteratorState::Header => None,
            IteratorState::Body(index) => {
                self.state = IteratorState::Body(index + 1);
                self.byte_at_offset(index)
            },
        }
    }
}

// - InterfaceDescriptor ------------------------------------------------------

/// USB interface descriptor
pub struct InterfaceDescriptor {
    pub _length: u8,  // 9
    pub _descriptor_type: u8,  // 4 = Interface
    pub interface_number: u8,
    pub alternate_setting: u8,
    pub _num_endpoints: u8,
    pub interface_class: u8,
    pub interface_subclass: u8,
    pub interface_protocol: u8,
    pub interface_string_index: u8,
    pub endpoint_descriptors: Vec<EndpointDescriptor>,
}

/// The bytes of a list of endpoints.
pub open spec fn spec_endpoints_bytes(eps: Seq<EndpointDescriptor>) -> Seq<u8>
    decreases eps.len(),
{
    if eps.len() == 0 {
        Seq::empty()
    } else {
        spec_endpoints_bytes(eps.drop_last()) + eps.last().spec_bytes()
    }
}

impl InterfaceDescriptor {
    pub const N: usize = 9;

    /// The interface has the given number, class, subclass, protocol and
    /// string index, alternate setting 0, and the given endpoints.
    pub open spec fn spec_has(
        &self,
        interface_number: u8,
        interface_class: u8,
        interface_subclass: u8,
        interface_protocol: u8,
        interface_string_index: u8,
        endpoints: Seq<EndpointDescriptor>,
    ) -> bool {
        &&& self.interface_number == interface_number
        &&& self.alternate_setting == 0
        &&& self.interface_class == interface_class
        &&& self.interface_subclass == interface_subclass
        &&& self.interface_protocol == interface_protocol
        &&& self.interface_string_index == interface_string_index
        &&& self.endpoint_descriptors@ == endpoints
    }

    /// The bytes of the interface: its 9 byte header, then its endpoints.
    pub open spec fn spec_bytes(&self) -> Seq<u8> {
        seq![
            9u8,
            4u8,
            self.interface_number,
            self.alternate_setting,
            (self.endpoint_descriptors@.len() % 256) as u8,
            self.interface_class,
            self.interface_subclass,
            self.interface_protocol,
            self.interface_string_index,
        ] + spec_endpoints_bytes(self.endpoint_descriptors@)
    }

    pub fn length(&self) -> (r: u8)
        ensures
            r == 9,
    {
        9
    }

    pub fn descriptor_type(&self) -> (r: u8)
        ensures
            r == 4,
    {
        DescriptorType::Interface.value()
    }

    pub fn num_endpoints(&self) -> (r: u8)
        ensures
            r == self.endpoint_descriptors@.len() % 256,
    {
        (self.endpoint_descriptors.len() % 256) as u8
    }

    pub fn iter(&self) -> (r: InterfaceDescriptorIterator<'_>)
        ensures
            r.spec_descriptor() == self,
            r.offset() == 0,
    {
        InterfaceDescriptorIterator::new(self)
    }

    /// The bytes of the interface.
    fn bytes(&self) -> (r: Vec<u8>)
        ensures
            r@ == self.spec_bytes(),
    {
        let mut v: Vec<u8> = Vec::new();
        v.push(self.length());
        v.push(self.descriptor_type());
        v.push(self.interface_number);
        v.push(self.alternate_setting);
        v.push(self.num_endpoints());
        v.push(self.interface_class);
        v.push(self.interface_subclass);
        v.push(self.interface_protocol);
        v.push(self.interface_string_index);
        let ghost head = v@;
        let eps = &self.endpoint_descriptors;
        let mut i: usize = 0;
        while i < eps.len()
            invariant
                i <= eps@.len(),
                v@ == head + spec_endpoints_bytes(eps@.take(i as int)),
            decreases eps@.len() - i,
        {
            assert(eps@.take(i + 1).drop_last() =~= eps@.take(i as int));
            let e = &eps[i];
            v.push(e.length());
            v.push(e.descriptor_type());
            v.push(e.endpoint_address);
            v.push(e.attributes);
            push_u16_le(&mut v, e.max_packet_size);
            v.push(e.interval);
            i = i + 1;
            assert(v@ =~= head + spec_endpoints_bytes(eps@.take(i as int)));
        }
        assert(eps@.take(eps@.len() as int) =~= eps@);
        assert(v@ =~= self.spec_bytes());
        v
    }
}

/// Iterates over the bytes of an interface descriptor and its endpoints.
pub struct InterfaceDescriptorIterator<'a> {
    descriptor: &'a InterfaceDescriptor,
    state: IteratorState,
}

impl<'a> InterfaceDescriptorIterator<'a> {
    /// The descriptor being encoded.
    pub closed spec fn spec_descriptor(&self) -> &'a InterfaceDescriptor {
        self.descriptor
    }

    /// The offset of the next byte, once the iterator has started.
    pub closed spec fn offset(&self) -> int {
        match self.state {
            IteratorState::Header => -1,
            IteratorState::Body(index) => index as int,
        }
    }

    pub fn new(descriptor: &'a InterfaceDescriptor) -> (r: Self)
        ensures
            r.spec_descriptor() == descriptor,
            r.offset() == 0,
    {
        Self { descriptor, state: IteratorState::Body(0) }
    }

    /// The byte at `index` in the interface's encoding, if it is that long.
    pub fn byte_at_offset(&self, index: usize) -> (r: Option<u8>)
        ensures
            r == (if index < self.spec_descriptor().spec_bytes().len() {
                Some(self.spec_descriptor().spec_bytes()[index as int])
            } else {
                None::<u8>
            }),
    {
        let bytes = self.descriptor.bytes();
        if index < bytes.len() {
            Some(bytes[index])
        } else {
            None
        }
    }

    /// The next byte of the encoding, or `None` past its end.
    pub fn next(&mut self) -> (r: Option<u8>)
        requires
            old(self).offset() < usize::MAX,
        ensures
            final(self).spec_descriptor() == old(self).spec_descriptor(),
            old(self).offset() >= 0 ==> final(self).offset() == old(self).offset() + 1,
            r == (if 0 <= old(self).offset() < old(self).spec_descriptor().spec_bytes().len() {
                Some(old(self).spec_descriptor().spec_bytes()[old(self).offset()])
            } else {
                None::<u8>
            }),
    {
        match self.state {
            IteratorState::Header => None,
            IteratorState::Body(index) => {
                self.state = IteratorState::Body(index + 1);
                self.byte_at_offset(index)
            },
        }
    }
}

// - EndpointDescriptor -------------------------------------------------------

/// USB endpoint descriptor
#[derive(Clone, Copy, Debug, PartialEq, Eq, Structural)]
pub struct EndpointDescriptor {
    pub _length: u8,  // 7
    pub _descriptor_type: u8,  // 5 = Endpoint
    pub endpoint_address: u8,
    pub attributes: u8,
    pub max_packet_size: u16,
    pub interval: u8,
}

impl EndpointDescriptor {
    pub const N: usize = 7;

    /// A 7-byte endpoint descriptor with every other field zero.
    pub open spec fn spec_new() -> EndpointDescriptor {
        EndpointDescriptor {
            _length: 7,
            _descriptor_type: 5,
            endpoint_address: 0,
            attributes: 0,
            max_packet_size: 0,
            interval: 0,
        }
    }

    /// An endpoint descriptor with the given fields.
    pub open spec fn spec_with(
        endpoint_address: u8,
        attributes: u8,
        max_packet_size: u16,
        interval: u8,
    ) -> EndpointDescriptor {
        EndpointDescriptor { endpoint_address, attributes, max_packet_size, interval, ..Self::spec_new() }
    }

    /// The 7 bytes `iter` yields: the standard length and type, then the
    /// fields.
    pub open spec fn spec_bytes(&self) -> Seq<u8> {
        seq![7u8, 5u8, self.endpoint_address, self.attributes] + u16_le(self.max_packet_size)
            + seq![self.interval]
    }

    pub fn new() -> (r: Self)
        ensures
            r == Self::spec_new(),
    {
        Self {
            _length: 7,
            _descriptor_type: DescriptorType::Endpoint.value(),
            endpoint_address: 0,
            attributes: 0,
            max_packet_size: 0,
            interval: 0,
        }
    }

    pub fn length(&self) -> (r: u8)
        ensures
            r == 7,
    {
        7
    }

    pub fn descriptor_type(&self) -> (r: u8)
        ensures
            r == 5,
    {
        DescriptorType::Endpoint.value()
    }

    pub fn iter(&self) -> (r: EndpointDescriptorIterator<'_>)
        ensures
            r.spec_descriptor() == self,
            r.remaining() == self.spec_bytes(),
    {
        EndpointDescriptorIterator::new(self)
    }
}

impl Default for EndpointDescriptor {
    fn default() -> (r: Self)
        ensures
            r == Self::spec_new(),
    {
        Self::new()
    }
}

impl AsByteSliceIterator for EndpointDescriptor {
    open spec fn spec_as_bytes(&self) -> Seq<u8> {
        seq![self._length, self._descriptor_type, self.endpoint_address, self.attributes]
            + u16_le(self.max_packet_size) + seq![self.interval]
    }

    fn as_iter(&self) -> (r: Vec<u8>) {
        let mut v: Vec<u8> = Vec::new();
        v.push(self._length);
        v.push(self._descriptor_type);
        v.push(self.endpoint_address);
        v.push(self.attributes);
        push_u16_le(&mut v, self.max_packet_size);
        v.push(self.interval);
        assert(v@ =~= self.spec_as_bytes());
        v
    }
}

/// Iterates over the 7 bytes of an endpoint descriptor.
pub struct EndpointDescriptorIterator<'a> {
    descriptor: &'a EndpointDescriptor,
    bytes: [u8; 7],
    position: usize,
}

impl<'a> EndpointDescriptorIterator<'a> {
    /// The descriptor being encoded.
    pub closed spec fn spec_descriptor(&self) -> &'a EndpointDescriptor {
        self.descriptor
    }

    /// The bytes still to come.
    pub closed spec fn remaining(&self) -> Seq<u8> {
        self.bytes@.skip(self.position as int)
    }

    #[verifier::type_invariant]
    spec fn position_in_bounds(&self) -> bool {
        self.position <= 7
    }

    pub fn new(descriptor: &'a EndpointDescriptor) -> (r: Self)
        ensures
            r.spec_descriptor() == descriptor,
            r.remaining() == descriptor.spec_bytes(),
    {
        let (mps0, mps1) = crate::bytes::u16_to_le(descriptor.max_packet_size);
        let bytes = [
            descriptor.length(),
            descriptor.descriptor_type(),
            descriptor.endpoint_address,
            descriptor.attributes,
            mps0,
            mps1,
            descriptor.interval,
        ];
        let r = Self { descriptor, bytes, position: 0 };
        assert(r.remaining() =~= descriptor.spec_bytes());
        r
    }

    /// The next byte, or `None` when all 7 have been returned.
    pub fn next(&mut self) -> (r: Option<u8>)
        ensures
            final(self).spec_descriptor() == old(self).spec_descriptor(),
            old(self).remaining().len() > 0 ==> r == Some(old(self).remaining()[0])
                && final(self).remaining() == old(self).remaining().drop_first(),
            old(self).remaining().len() == 0 ==> r is None && final(self).remaining()
                == old(self).remaining(),
    {
        proof {
            use_type_invariant(&*self);
        }
        if self.position < 7 {
            let b = self.bytes[self.position];
            self.position = self.position + 1;
            assert(self.remaining() =~= old(self).remaining().drop_first());
            Some(b)
        } else {
            None
        }
    }
}

/// The total length a configuration declares is the number of bytes it
/// encodes to, as long as no interface declares more than 255 endpoints.
pub proof fn lemma_total_length_is_encoded_length(config: &ConfigurationDescriptor)
    requires
        config.has_total_length(),
        forall|i: int|
            0 <= i < config.interface_descriptors@.len()
                ==> #[trigger] config.interface_descriptors@[i].endpoint_descriptors@.len() < 256,
    ensures
        config.spec_total_length() as int == config.spec_bytes().len(),
{
    lemma_interfaces_bytes_len(config.interface_descriptors@);
}

proof fn lemma_interfaces_bytes_len(ifaces: Seq<InterfaceDescriptor>)
    requires
        forall|i: int|
            0 <= i < ifaces.len() ==> #[trigger] ifaces[i].endpoint_descriptors@.len() < 256,
    ensures
        spec_interfaces_bytes(ifaces).len() == spec_interfaces_length(ifaces),
    decreases ifaces.len(),
{
    if ifaces.len() > 0 {
        let last = ifaces.last();
        assert(ifaces[ifaces.len() - 1].endpoint_descriptors@.len() < 256);
        lemma_interfaces_bytes_len(ifaces.drop_last());
        lemma_endpoints_bytes_len(last.endpoint_descriptors@);
    }
}

proof fn lemma_endpoints_bytes_len(eps: Seq<EndpointDescriptor>)
    ensures
        spec_endpoints_bytes(eps).len() == 7 * eps.len(),
    decreases eps.len(),
{
    if eps.len() > 0 {
        lemma_endpoints_bytes_len(eps.drop_last());
    }
}


/// The wire layout of an endpoint descriptor: length 7, type 5 (endpoint),
/// the endpoint address, the attributes, the maximum packet size
/// little-endian, then the polling interval.
pub proof fn lemma_endpoint_descriptor_layout(d: EndpointDescriptor)
    ensures
        d.spec_bytes().len() == 7,
        d.spec_bytes()[0] == 7,
        d.spec_bytes()[1] == 5,
        d.spec_bytes()[2] == d.endpoint_address,
        d.spec_bytes()[3] == d.attributes,
        d.spec_bytes()[4] == d.max_packet_size % 256,
        d.spec_bytes()[5] == d.max_packet_size / 256,
        d.spec_bytes()[6] == d.interval,
{
}

/// The endpoints of a list follow one another, seven bytes each, in the
/// order of the list.
pub proof fn lemma_endpoints_bytes_layout(eps: Seq<EndpointDescriptor>, j: int)
    requires
        0 <= j < eps.len(),
    ensures
        spec_endpoints_bytes(eps).len() == 7 * eps.len(),
        spec_endpoints_bytes(eps).subrange(7 * j, 7 * j + 7) == eps[j].spec_bytes(),
    decreases eps.len(),
{
    lemma_endpoints_bytes_len(eps);
    lemma_endpoints_bytes_len(eps.drop_last());
    if j < eps.len() - 1 {
        lemma_endpoints_bytes_layout(eps.drop_last(), j);
        assert(spec_endpoints_bytes(eps).subrange(7 * j, 7 * j + 7) =~= spec_endpoints_bytes(
            eps.drop_last(),
        ).subrange(7 * j, 7 * j + 7));
    } else {
        assert(spec_endpoints_bytes(eps).subrange(7 * j, 7 * j + 7) =~= eps.last().spec_bytes());
    }
}

/// The wire layout of an interface descriptor: length 9, type 4
/// (interface), the interface number, the alternate setting, the number of
/// endpoints, the interface class, subclass and protocol in that order, and
/// the string index; then each of its endpoints, seven bytes each, in order
/// (endpoint `j` at offset `9 + 7 * j`).
pub proof fn lemma_interface_descriptor_layout(d: InterfaceDescriptor, j: int)
    ensures
        d.spec_bytes().len() == 9 + 7 * d.endpoint_descriptors@.len(),
        d.spec_bytes()[0] == 9,
        d.spec_bytes()[1] == 4,
        d.spec_bytes()[2] == d.interface_number,
        d.spec_bytes()[3] == d.alternate_setting,
        d.spec_bytes()[4] == d.endpoint_descriptors@.len() % 256,
        d.spec_bytes()[5] == d.interface_class,
        d.spec_bytes()[6] == d.interface_subclass,
        d.spec_bytes()[7] == d.interface_protocol,
        d.spec_bytes()[8] == d.interface_string_index,
        0 <= j < d.endpoint_descriptors@.len() ==> d.spec_bytes().subrange(9 + 7 * j, 16 + 7 * j)
            == d.endpoint_descriptors@[j].spec_bytes(),
{
    let eps = d.endpoint_descriptors@;
    lemma_endpoints_bytes_len(eps);
    if 0 <= j < eps.len() {
        lemma_endpoints_bytes_layout(eps, j);
        assert(d.spec_bytes().subrange(9 + 7 * j, 16 + 7 * j) =~= spec_endpoints_bytes(eps).subrange(
            7 * j,
            7 * j + 7,
        ));
    }
}

/// The interfaces of a list follow one another in the order of the list:
/// interface `i` starts where the bytes of the interfaces before it end.
pub proof fn lemma_interfaces_bytes_layout(ifaces: Seq<InterfaceDescriptor>, i: int)
    requires
        0 <= i < ifaces.len(),
    ensures
        ({
            let start: int = spec_interfaces_bytes(ifaces.take(i)).len() as int;
            &&& start + ifaces[i].spec_bytes().len() <= spec_interfaces_bytes(ifaces).len()
            &&& spec_interfaces_bytes(ifaces).subrange(start, start + ifaces[i].spec_bytes().len()) == ifaces[i].spec_bytes()
        }),
    decreases ifaces.len(),
{
    let prefix = ifaces.drop_last();
    if i < ifaces.len() - 1 {
        lemma_interfaces_bytes_layout(prefix, i);
        assert(prefix.take(i) =~= ifaces.take(i));
        let start: int = spec_interfaces_bytes(ifaces.take(i)).len() as int;
        assert(spec_interfaces_bytes(ifaces).subrange(start, start + ifaces[i].spec_bytes().len())
            =~= spec_interfaces_bytes(prefix).subrange(start, start + ifaces[i].spec_bytes().len()));
    } else {
        assert(ifaces.take(i) =~= prefix);
        assert(spec_interfaces_bytes(ifaces).subrange(
            spec_interfaces_bytes(prefix).len() as int,
            spec_interfaces_bytes(ifaces).len() as int,
        ) =~= ifaces.last().spec_bytes());
    }
}

/// The wire layout of a configuration descriptor: length 9, its type, the
/// total length little-endian, the number of interfaces, the configuration
/// value, the string index, the attributes and the maximum power; then its
/// interfaces, each with its endpoints, in order: interface `i` starts
/// after the header and the interfaces before it.
pub proof fn lemma_configuration_descriptor_layout(config: ConfigurationDescriptor, i: int)
    requires
        0 <= i < config.interface_descriptors@.len(),
    ensures
        config.spec_bytes()[0] == 9,
        config.spec_bytes()[1] == spec_descriptor_type_code(config.descriptor_type),
        config.spec_bytes()[2] == config.spec_total_length() % 256,
        config.spec_bytes()[3] == config.spec_total_length() / 256,
        config.spec_bytes()[4] == config.interface_descriptors@.len() % 256,
        config.spec_bytes()[5] == config.configuration_value,
        config.spec_bytes()[6] == config.configuration_string_index,
        config.spec_bytes()[7] == config.attributes,
        config.spec_bytes()[8] == config.max_power,
        ({
            let ifaces = config.interface_descriptors@;
            let start: int = 9 + spec_interfaces_bytes(ifaces.take(i)).len() as int;
            &&& start + ifaces[i].spec_bytes().len() <= config.spec_bytes().len()
            &&& config.spec_bytes().subrange(start, start + ifaces[i].spec_bytes().len())
                == ifaces[i].spec_bytes()
        }),
{
    let ifaces = config.interface_descriptors@;
    lemma_interfaces_bytes_layout(ifaces, i);
    let start: int = 9 + spec_interfaces_bytes(ifaces.take(i)).len() as int;
    assert(config.spec_bytes().subrange(start, start + ifaces[i].spec_bytes().len())
        =~= spec_interfaces_bytes(ifaces).subrange(start - 9, start - 9 + ifaces[i].spec_bytes().len()));
}

// - LanguageId ---------------------------------------------------------------

/// Language ID
#[derive(Copy, Clone, Debug, PartialEq, Eq, Structural)]
pub enum LanguageId {
    EnglishUnitedStates,
    EnglishUnitedKingdom,
    EnglishCanadian,
    EnglishSouthAfrica,
}

/// The USB language code of `id`.
pub open spec fn spec_language_code(id: LanguageId) -> u16 {
    match id {
        LanguageId::EnglishUnitedStates => 0x0409,
        LanguageId::EnglishUnitedKingdom => 0x0809,
        LanguageId::EnglishCanadian => 0x1009,
        LanguageId::EnglishSouthAfrica => 0x1c09,
    }
}

impl LanguageId {
    /// The USB language code.
    pub fn value(&self) -> (r: u16)
        ensures
            r == spec_language_code(*self),
    {
        match self {
            LanguageId::EnglishUnitedStates => 0x0409,
            LanguageId::EnglishUnitedKingdom => 0x0809,
            LanguageId::EnglishCanadian => 0x1009,
            LanguageId::EnglishSouthAfrica => 0x1c09,
        }
    }
}

impl AsByteSliceIterator for LanguageId {
    open spec fn spec_as_bytes(&self) -> Seq<u8> {
        u16_le(spec_language_code(*self))
    }

    fn as_iter(&self) -> (r: Vec<u8>) {
        let mut v: Vec<u8> = Vec::new();
        push_u16_le(&mut v, self.value());
        assert(v@ =~= self.spec_as_bytes());
        v
    }
}

// - CompositeIterator --------------------------------------------------------

/// The bytes of a list of values, one after the other.
pub open spec fn spec_tail_bytes<T: AsByteSliceIterator>(tail: Seq<T>) -> Seq<u8>
    decreases tail.len(),
{
    if tail.len() == 0 {
        Seq::empty()
    } else {
        spec_tail_bytes(tail.drop_last()) + tail.last().spec_as_bytes()
    }
}

/// The bytes of a list of values.
fn tail_bytes<T: AsByteSliceIterator>(tail: &[T]) -> (r: Vec<u8>)
    ensures
        r@ == spec_tail_bytes(tail@),
{
    let mut v: Vec<u8> = Vec::new();
    let mut i: usize = 0;
    while i < tail.len()
        invariant
            i <= tail@.len(),
            v@ == spec_tail_bytes(tail@.take(i as int)),
        decreases tail@.len() - i,
    {
        assert(tail@.take(i + 1).drop_last() =~= tail@.take(i as int));
        let b = tail[i].as_iter();
        let mut j: usize = 0;
        let ghost before = v@;
        while j < b.len()
            invariant
                j <= b@.len(),
                v@ == before + b@.take(j as int),
            decreases b@.len() - j,
        {
            v.push(b[j]);
            j = j + 1;
            assert(v@ =~= before + b@.take(j as int));
        }
        assert(b@.take(b@.len() as int) =~= b@);
        i = i + 1;
    }
    assert(tail@.take(tail@.len() as int) =~= tail@);
    v
}

/// Iterates over the bytes of a head value followed by a list of tail values.
pub struct CompositeIterator {
    bytes: Vec<u8>,
    position: usize,
}

impl CompositeIterator {
    /// The bytes still to come.
    pub closed spec fn remaining(&self) -> Seq<u8> {
        self.bytes@.skip(self.position as int)
    }

    #[verifier::type_invariant]
    spec fn position_in_bounds(&self) -> bool {
        self.position <= self.bytes@.len()
    }

    /// Sets the head's total length to the length of the head and tail
    /// encodings, then iterates over the encodings.
    pub fn new_mut<H: AsByteSliceIterator + SetTotalLength, T: AsByteSliceIterator>(
        head: &mut H,
        tail: &[T],
    ) -> (r: Self)
        requires
            old(head).spec_as_bytes().len() + spec_tail_bytes(tail@).len() <= usize::MAX,
        ensures
            *final(head) == old(head).spec_set_total_length(
                (old(head).spec_as_bytes().len() + spec_tail_bytes(tail@).len()) as usize,
            ),
            r.remaining() == final(head).spec_as_bytes() + spec_tail_bytes(tail@),
    {
        let head_length = head.as_iter().len();
        let tail_bytes = tail_bytes(tail);
        head.set_total_length(head_length + tail_bytes.len());
        let mut bytes = head.as_iter();
        let mut i: usize = 0;
        let ghost before = bytes@;
        while i < tail_bytes.len()
            invariant
                i <= tail_bytes@.len(),
                bytes@ == before + tail_bytes@.take(i as int),
            decreases tail_bytes@.len() - i,
        {
            bytes.push(tail_bytes[i]);
            i = i + 1;
            assert(bytes@ =~= before + tail_bytes@.take(i as int));
        }
        assert(tail_bytes@.take(tail_bytes@.len() as int) =~= tail_bytes@);
        let r = Self { bytes, position: 0 };
        assert(r.remaining() =~= r.bytes@);
        r
    }

    pub fn new<H: AsByteSliceIterator, T: AsByteSliceIterator>(head: &H, tail: &[T]) -> (r: Self)
        ensures
            r.remaining() == head.spec_as_bytes() + spec_tail_bytes(tail@),
    {
        let mut bytes = head.as_iter();
        let tail_bytes = tail_bytes(tail);
        let mut i: usize = 0;
        let ghost before = bytes@;
        while i < tail_bytes.len()
            invariant
                i <= tail_bytes@.len(),
                bytes@ == before + tail_bytes@.take(i as int),
            decreases tail_bytes@.len() - i,
        {
            bytes.push(tail_bytes[i]);
            i = i + 1;
            assert(bytes@ =~= before + tail_bytes@.take(i as int));
        }
        assert(tail_bytes@.take(tail_bytes@.len() as int) =~= tail_bytes@);
        let r = Self { bytes, position: 0 };
        assert(r.remaining() =~= r.bytes@);
        r
    }

    /// The next byte, or `None` at the end.
    pub fn next(&mut self) -> (r: Option<u8>)
        ensures
            old(self).remaining().len() > 0 ==> r == Some(old(self).remaining()[0])
                && final(self).remaining() == old(self).remaining().drop_first(),
            old(self).remaining().len() == 0 ==> r is None && final(self).remaining()
                == old(self).remaining(),
    {
        proof {
            use_type_invariant(&*self);
        }
        if self.position < self.bytes.len() {
            let b = self.bytes[self.position];
            self.position = self.position + 1;
            assert(self.remaining() =~= old(self).remaining().drop_first());
            Some(b)
        } else {
            None
        }
    }
}

// - StringDescriptorZero -----------------------------------------------------

pub struct StringDescriptorZero {
    head: StringDescriptorZeroHead,
    tail: Vec<LanguageId>,
}

impl StringDescriptorZero {
    /// The header of the descriptor.
    pub closed spec fn spec_head(&self) -> StringDescriptorZeroHead {
        self.head
    }

    /// The languages the descriptor lists.
    pub closed spec fn spec_tail(&self) -> Seq<LanguageId> {
        self.tail@
    }

    pub fn new(tail: &[LanguageId]) -> (r: Self)
        ensures
            r.spec_head() == (StringDescriptorZeroHead {
                _length: ((2 + 2 * tail@.len()) % 256) as u8,
                _descriptor_type: 3,
            }),
            r.spec_tail() == tail@,
    {
        let n = (tail.len() % 128) as u16;
        let length = ((2 + 2 * n) % 256) as u8;
        let mut v: Vec<LanguageId> = Vec::new();
        let mut i: usize = 0;
        while i < tail.len()
            invariant
                i <= tail@.len(),
                v@ == tail@.take(i as int),
            decreases tail@.len() - i,
        {
            v.push(tail[i]);
            i = i + 1;
            assert(v@ =~= tail@.take(i as int));
        }
        assert(v@ =~= tail@);
        Self {
            head: StringDescriptorZeroHead {
                _length: length,
                _descriptor_type: DescriptorType::String.value(),
            },
            tail: v,
        }
    }

    pub fn iter(&self) -> (r: CompositeIterator)
        ensures
            r.remaining() == self.spec_head().spec_as_bytes() + spec_tail_bytes(self.spec_tail()),
    {
        CompositeIterator::new(&self.head, self.tail.as_slice())
    }
}

#[derive(Clone, Copy, Debug, PartialEq, Eq, Structural)]
pub struct StringDescriptorZeroHead {
    pub _length: u8,
    pub _descriptor_type: u8,  // 3 = String
}

impl StringDescriptorZeroHead {
    pub fn new() -> (r: Self)
        ensures
            r == (StringDescriptorZeroHead { _length: 0, _descriptor_type: 3 }),
    {
        Self { _length: 0, _descriptor_type: DescriptorType::String.value() }
    }
}

impl SetTotalLength for StringDescriptorZeroHead {
    /// The head records the total length in its length byte.
    open spec fn spec_set_total_length(self, total_length: usize) -> Self {
        StringDescriptorZeroHead { _length: total_length as u8, ..self }
    }

    fn set_total_length(&mut self, total_length: usize) {
        self._length = total_length as u8;
    }
}

impl AsByteSliceIterator for StringDescriptorZeroHead {
    open spec fn spec_as_bytes(&self) -> Seq<u8> {
        seq![self._length, self._descriptor_type]
    }

    fn as_iter(&self) -> (r: Vec<u8>) {
        let mut v: Vec<u8> = Vec::new();
        v.push(self._length);
        v.push(self._descriptor_type);
        assert(v@ =~= self.spec_as_bytes());
        v
    }
}

// - UTF-16 -------------------------------------------------------------------

/// The UTF-16 code units of a character.
pub open spec fn spec_utf16_char(c: char) -> Seq<u16> {
    let v = c as int;
    if v < 0x10000 {
        seq![v as u16]
    } else {
        seq![(0xD800 + (v - 0x10000) / 1024) as u16, (0xDC00 + (v - 0x10000) % 1024) as u16]
    }
}

/// The UTF-16 code units of a string.
pub open spec fn spec_utf16(s: Seq<char>) -> Seq<u16>
    decreases s.len(),
{
    if s.len() == 0 {
        Seq::empty()
    } else {
        spec_utf16(s.drop_last()) + spec_utf16_char(s.last())
    }
}

/// The little-endian bytes of a sequence of code units.
pub open spec fn spec_units_bytes(units: Seq<u16>) -> Seq<u8>
    decreases units.len(),
{
    if units.len() == 0 {
        Seq::empty()
    } else {
        u16_le(units[0]) + spec_units_bytes(units.drop_first())
    }
}

/// The UTF-16 code units of a string.
fn encode_utf16(s: &str) -> (r: Vec<u16>)
    ensures
        r@ == spec_utf16(s@),
{
    let n = s.unicode_len();
    let mut units: Vec<u16> = Vec::new();
    let mut i: usize = 0;
    while i < n
        invariant
            n == s@.len(),
            i <= n,
            units@ == spec_utf16(s@.take(i as int)),
        decreases n - i,
    {
        assert(s@.take(i + 1).drop_last() =~= s@.take(i as int));
        let c = s.get_char(i);
        let v = c as u32;
        if v < 0x10000 {
            units.push(v as u16);
        } else {
            let w = v - 0x10000;
            units.push((0xD800 + w / 1024) as u16);
            units.push((0xDC00 + w % 1024) as u16);
        }
        i = i + 1;
        assert(units@ =~= spec_utf16(s@.take(i as int)));
    }
    assert(s@.take(n as int) =~= s@);
    units
}

// - StringDescriptor ---------------------------------------------------------

/// USB String Descriptor
pub struct StringDescriptor<'a> {
    _length: u8,
    _descriptor_type: u8,
    string: &'a str,
}

impl<'a> StringDescriptor<'a> {
    pub const N: usize = 2;

    /// The string the descriptor holds.
    pub closed spec fn spec_string(&self) -> Seq<char> {
        self.string@
    }

    /// The descriptor length: two header bytes and two bytes per UTF-16
    /// code unit, kept to its low byte.
    pub open spec fn spec_length(&self) -> u8 {
        ((2 + 2 * spec_utf16(self.spec_string()).len()) % 256) as u8
    }

    /// The bytes of the descriptor: its length, its type, then the string
    /// in UTF-16LE.
    pub open spec fn spec_bytes(&self) -> Seq<u8> {
        seq![self.spec_length(), 3u8] + spec_units_bytes(spec_utf16(self.spec_string()))
    }

    pub fn new(string: &'a str) -> (r: Self)
        ensures
            r.spec_string() == string@,
    {
        Self { _length: 2, _descriptor_type: DescriptorType::String.value(), string }
    }

    /// Descriptor length
    pub fn length(&self) -> (r: u8)
        ensures
            r == self.spec_length(),
    {
        let count = encode_utf16(self.string).len();
        let n = (count % 128) as u16;
        ((2 + 2 * n) % 256) as u8
    }

    /// Descriptor type
    pub fn descriptor_type(&self) -> (r: u8)
        ensures
            r == 3,
    {
        DescriptorType::String.value()
    }

    /// Returns an iterator to the descriptor
    pub fn iter(&self) -> (r: StringDescriptorIterator<'_>)
        ensures
            r.wf(),
            r.spec_descriptor() == self,
            r.remaining() == self.spec_bytes(),
    {
        StringDescriptorIterator::new(self)
    }
}

enum StringDescriptorIteratorState {
    Length,
    DescriptorType,
    String,
}

/// Iterates over the bytes of a string descriptor. After the last byte it
/// returns `None` once and starts over.
pub struct StringDescriptorIterator<'a> {
    descriptor: &'a StringDescriptor<'a>,
    state: StringDescriptorIteratorState,
    string_iter: Utf16ByteIterator,
}

impl<'a> StringDescriptorIterator<'a> {
    /// The descriptor being encoded.
    pub closed spec fn spec_descriptor(&self) -> &'a StringDescriptor<'a> {
        self.descriptor
    }

    /// The bytes still to come before the next `None`.
    pub closed spec fn remaining(&self) -> Seq<u8> {
        match self.state {
            StringDescriptorIteratorState::Length => seq![
                self.descriptor.spec_length(),
                3u8,
            ] + self.string_iter.remaining(),
            StringDescriptorIteratorState::DescriptorType => seq![3u8]
                + self.string_iter.remaining(),
            StringDescriptorIteratorState::String => self.string_iter.remaining(),
        }
    }

    /// The iterator is at a point of the descriptor's encoding.
    pub closed spec fn wf(&self) -> bool {
        match self.state {
            StringDescriptorIteratorState::String => true,
            _ => self.string_iter.remaining() == spec_units_bytes(
                spec_utf16(self.descriptor.spec_string()),
            ),
        }
    }

    fn new(descriptor: &'a StringDescriptor) -> (r: Self)
        ensures
            r.wf(),
            r.spec_descriptor() == descriptor,
            r.remaining() == descriptor.spec_bytes(),
    {
        Self {
            descriptor,
            string_iter: Utf16ByteIterator::new(descriptor.string),
            state: StringDescriptorIteratorState::Length,
        }
    }

    /// The next byte, or `None` after the last byte, when the iterator
    /// starts over from the beginning.
    pub fn next(&mut self) -> (r: Option<u8>)
        requires
            old(self).wf(),
        ensures
            final(self).wf(),
            final(self).spec_descriptor() == old(self).spec_descriptor(),
            old(self).remaining().len() > 0 ==> r == Some(old(self).remaining()[0])
                && final(self).remaining() == old(self).remaining().drop_first(),
            old(self).remaining().len() == 0 ==> r is None && final(self).remaining()
                == old(self).spec_descriptor().spec_bytes(),
    {
        match self.state {
            StringDescriptorIteratorState::Length => {
                self.state = StringDescriptorIteratorState::DescriptorType;
                let r = Some(self.descriptor.length());
                assert(self.remaining() =~= old(self).remaining().drop_first());
                r
            },
            StringDescriptorIteratorState::DescriptorType => {
                self.state = StringDescriptorIteratorState::String;
                let r = Some(self.descriptor.descriptor_type());
                assert(self.remaining() =~= old(self).remaining().drop_first());
                r
            },
            StringDescriptorIteratorState::String => {
                match self.string_iter.next() {
                    Some(byte) => {
                        self.state = StringDescriptorIteratorState::String;
                        Some(byte)
                    },
                    None => {
                        self.string_iter = Utf16ByteIterator::new(self.descriptor.string);
                        self.state = StringDescriptorIteratorState::Length;
                        None
                    },
                }
            },
        }
    }
}

// - Utf16ByteIterator --------------------------------------------------------

/// Iterates over the UTF-16LE bytes of a string.
pub struct Utf16ByteIterator {
    units: Vec<u16>,
    index: usize,
    byte: Option<u8>,
}

impl Utf16ByteIterator {
    /// The bytes still to come.
    pub closed spec fn remaining(&self) -> Seq<u8> {
        let pending: Seq<u8> = match self.byte {
            Some(b) => seq![b],
            None => Seq::empty(),
        };
        pending + spec_units_bytes(self.units@.skip(self.index as int))
    }

    #[verifier::type_invariant]
    spec fn index_in_bounds(&self) -> bool {
        self.index <= self.units@.len()
    }

    pub fn new(string: &str) -> (r: Self)
        ensures
            r.remaining() == spec_units_bytes(spec_utf16(string@)),
    {
        let units = encode_utf16(string);
        let r = Self { units, index: 0, byte: None };
        assert(r.units@.skip(0) =~= r.units@);
        assert(r.remaining() =~= spec_units_bytes(spec_utf16(string@)));
        r
    }

    /// The next byte, or `None` at the end.
    pub fn next(&mut self) -> (r: Option<u8>)
        ensures
            old(self).remaining().len() > 0 ==> r == Some(old(self).remaining()[0])
                && final(self).remaining() == old(self).remaining().drop_first(),
            old(self).remaining().len() == 0 ==> r is None && final(self).remaining()
                == old(self).remaining(),
    {
        proof {
            use_type_invariant(&*self);
        }
        match self.byte {
            Some(b) => {
                self.byte = None;
                assert(self.remaining() =~= old(self).remaining().drop_first());
                Some(b)
            },
            None => {
                if self.index < self.units.len() {
                    let unit = self.units[self.index];
                    let (lo, hi) = crate::bytes::u16_to_le(unit);
                    proof {
                        let rest = self.units@.skip(self.index as int);
                        assert(rest.drop_first() =~= self.units@.skip(self.index + 1));
                    }
                    self.index = self.index + 1;
                    self.byte = Some(hi);
                    assert(self.remaining() =~= old(self).remaining().drop_first());
                    Some(lo)
                } else {
                    assert(self.units@.skip(self.index as int) =~= Seq::<u16>::empty());
                    None
                }
            },
        }
    }
}

} // verus!
