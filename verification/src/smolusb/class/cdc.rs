//! Communications device class: serial adapters, and the descriptors of a
//! device that enumerates as a WCH CH34x USB serial adapter.

pub mod ch34x;

use vstd::prelude::*;

use crate::smolusb::descriptor::{
    ConfigurationDescriptor, DescriptorType, DeviceDescriptor, EndpointDescriptor,
    InterfaceDescriptor, LanguageId, StringDescriptor, StringDescriptorZero,
    StringDescriptorZeroHead,
};

verus! {

/// The device: a vendor-specific CH34x serial adapter.
pub fn device_descriptor() -> (r: DeviceDescriptor)
    ensures
        r == (DeviceDescriptor {
            descriptor_version: 0x0200,
            device_class: 0xff,
            device_subclass: 0x00,
            device_protocol: 0x00,
            max_packet_size: 8,
            vendor_id: 0x1a86,
            product_id: 0x7523,
            device_version_number: 0x0264,
            manufacturer_string_index: 1,
            product_string_index: 2,
            serial_string_index: 3,
            num_configurations: 1,
            ..DeviceDescriptor::spec_new()
        }),
{
    DeviceDescriptor {
        descriptor_version: 0x0200,
        device_class: 0xff,
        device_subclass: 0x00,
        device_protocol: 0x00,
        max_packet_size: 8,
        vendor_id: 0x1a86,
        product_id: 0x7523,
        device_version_number: 0x0264,
        manufacturer_string_index: 1,
        product_string_index: 2,
        serial_string_index: 3,
        num_configurations: 1,
        ..DeviceDescriptor::new()
    }
}

/// The bus-powered configuration, drawing 100 mA, with the serial interface.
pub fn configuration_descriptor_0() -> (r: ConfigurationDescriptor)
    ensures
        r.descriptor_type == DescriptorType::Configuration,
        r.configuration_value == 1,
        r.configuration_string_index == 1,
        r.attributes == 0x80,
        r.max_power == 50,
        r.interface_descriptors@.len() == 1,
        r.interface_descriptors@[0].spec_has(
            0,
            0xff,
            0x01,
            0x02,
            2,
            seq![
                EndpointDescriptor::spec_with(0x82, 0x02, 512, 0),
                EndpointDescriptor::spec_with(0x02, 0x02, 512, 0),
                EndpointDescriptor::spec_with(0x81, 0x03, 8, 1),
            ],
        ),
{
    ConfigurationDescriptor {
        _length: 0,
        descriptor_type: DescriptorType::Configuration,
        _total_length: 0,
        _num_interfaces: 0,
        configuration_value: 1,
        configuration_string_index: 1,
        attributes: 0x80,
        max_power: 50,
        interface_descriptors: vec![
            InterfaceDescriptor {
                _length: 0,
                _descriptor_type: 4,
                interface_number: 0,
                alternate_setting: 0,
                _num_endpoints: 0,
                interface_class: 0xff,
                interface_subclass: 0x01,
                interface_protocol: 0x02,
                interface_string_index: 2,
                endpoint_descriptors: vec![
                    EndpointDescriptor {
                        endpoint_address: 0x82,
                        attributes: 0x02,
                        max_packet_size: 512,
                        interval: 0,
                        ..EndpointDescriptor::new()
                    },
                    EndpointDescriptor {
                        endpoint_address: 0x02,
                        attributes: 0x02,
                        max_packet_size: 512,
                        interval: 0,
                        ..EndpointDescriptor::new()
                    },
                    EndpointDescriptor {
                        endpoint_address: 0x81,
                        attributes: 0x03,
                        max_packet_size: 8,
                        interval: 1,
                        ..EndpointDescriptor::new()
                    },
                ],
            },
        ],
    }
}

/// The serial interface, with its data and interrupt endpoints.
pub fn interface_descriptor_0() -> (r: InterfaceDescriptor)
    ensures
        r.spec_has(
            0,
            0xff,
            0x01,
            0x02,
            2,
            seq![
                EndpointDescriptor::spec_with(0x82, 0x02, 512, 0),
                EndpointDescriptor::spec_with(0x02, 0x02, 512, 0),
                EndpointDescriptor::spec_with(0x81, 0x03, 8, 1),
            ],
        ),
{
    InterfaceDescriptor {
        _length: 0,
        _descriptor_type: 4,
        interface_number: 0,
        alternate_setting: 0,
        _num_endpoints: 0,
        interface_class: 0xff,
        interface_subclass: 0x01,
        interface_protocol: 0x02,
        interface_string_index: 2,
        endpoint_descriptors: vec![
            EndpointDescriptor {
                endpoint_address: 0x82,
                attributes: 0x02,
                max_packet_size: 512,
                interval: 0,
                ..EndpointDescriptor::new()
            },
            EndpointDescriptor {
                endpoint_address: 0x02,
                attributes: 0x02,
                max_packet_size: 512,
                interval: 0,
                ..EndpointDescriptor::new()
            },
            EndpointDescriptor {
                endpoint_address: 0x81,
                attributes: 0x03,
                max_packet_size: 8,
                interval: 1,
                ..EndpointDescriptor::new()
            },
        ],
    }
}

/// Bulk IN endpoint 2.
pub fn endpoint_descriptor_82() -> (r: EndpointDescriptor)
    ensures
        r == EndpointDescriptor::spec_with(0x82, 0x02, 512, 0),
{
    EndpointDescriptor {
        endpoint_address: 0x82,
        attributes: 0x02,
        max_packet_size: 512,
        interval: 0,
        ..EndpointDescriptor::new()
    }
}

/// Bulk OUT endpoint 2.
pub fn endpoint_descriptor_02() -> (r: EndpointDescriptor)
    ensures
        r == EndpointDescriptor::spec_with(0x02, 0x02, 512, 0),
{
    EndpointDescriptor {
        endpoint_address: 0x02,
        attributes: 0x02,
        max_packet_size: 512,
        interval: 0,
        ..EndpointDescriptor::new()
    }
}

/// Interrupt IN endpoint 1, polled every millisecond.
pub fn endpoint_descriptor_81() -> (r: EndpointDescriptor)
    ensures
        r == EndpointDescriptor::spec_with(0x81, 0x03, 8, 1),
{
    EndpointDescriptor {
        endpoint_address: 0x81,
        attributes: 0x03,
        max_packet_size: 8,
        interval: 1,
        ..EndpointDescriptor::new()
    }
}

/// The string descriptor of the language the device's strings are in:
/// United States English.
pub fn usb_string_descriptor_0() -> (r: StringDescriptorZero)
    ensures
        r.spec_tail() == seq![LanguageId::EnglishUnitedStates],
        r.spec_head() == (StringDescriptorZeroHead { _length: 4, _descriptor_type: 3 }),
{
    let languages = [LanguageId::EnglishUnitedStates];
    StringDescriptorZero::new(languages.as_slice())
}

/// The manufacturer string.
pub fn usb_string_descriptor_1() -> (r: StringDescriptor<'static>)
    ensures
        r.spec_string() == "Great Scott Gadgets"@,
{
    StringDescriptor::new("Great Scott Gadgets")
}

/// The product string.
pub fn usb_string_descriptor_2() -> (r: StringDescriptor<'static>)
    ensures
        r.spec_string() == "USB Serial Emulation"@,
{
    StringDescriptor::new("USB Serial Emulation")
}

/// The serial number string.
pub fn usb_string_descriptor_3() -> (r: StringDescriptor<'static>)
    ensures
        r.spec_string() == "v1.0"@,
{
    StringDescriptor::new("v1.0")
}

/// The device's strings, in the order of their indices from 1.
pub fn usb_string_descriptors() -> (r: [StringDescriptor<'static>; 3])
    ensures
        r[0].spec_string() == "Great Scott Gadgets"@,
        r[1].spec_string() == "USB Serial Emulation"@,
        r[2].spec_string() == "v1.0"@,
{
    [usb_string_descriptor_1(), usb_string_descriptor_2(), usb_string_descriptor_3()]
}

} // verus!
