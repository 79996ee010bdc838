//! The descriptors of the Cynthion: a composite device with two
//! vendor-specific interfaces, the second with a bulk IN and a bulk OUT
//! endpoint.

use vstd::prelude::*;

use crate::smolusb::descriptor::{
    ConfigurationDescriptor, DescriptorType, DeviceDescriptor, DeviceQualifierDescriptor,
    EndpointDescriptor, InterfaceDescriptor, LanguageId, StringDescriptor, StringDescriptorZero,
    StringDescriptorZeroHead,
};

verus! {

/// The device: Cynthion r04, an OpenMoko GreatFET replacement.
pub fn device_descriptor() -> (r: DeviceDescriptor)
    ensures
        r == (DeviceDescriptor {
            descriptor_version: 0x0200,
            device_class: 0x00,
            device_subclass: 0x00,
            device_protocol: 0x00,
            max_packet_size: 64,
            vendor_id: 0x1d50,
            product_id: 0x60e6,
            device_version_number: 0x0040,
            manufacturer_string_index: 1,
            product_string_index: 2,
            serial_string_index: 3,
            num_configurations: 1,
            ..DeviceDescriptor::spec_new()
        }),
{
    DeviceDescriptor {
        descriptor_version: 0x0200,
        device_class: 0x00,
        device_subclass: 0x00,
        device_protocol: 0x00,
        max_packet_size: 64,
        vendor_id: 0x1d50,
        product_id: 0x60e6,
        device_version_number: 0x0040,
        manufacturer_string_index: 1,
        product_string_index: 2,
        serial_string_index: 3,
        num_configurations: 1,
        ..DeviceDescriptor::new()
    }
}

/// The device qualifier: how the device would look at the other speed.
pub fn device_qualifier_descriptor() -> (r: DeviceQualifierDescriptor)
    ensures
        r == (DeviceQualifierDescriptor {
            descriptor_version: 0x0200,
            device_class: 0x00,
            device_subclass: 0x00,
            device_protocol: 0x00,
            max_packet_size: 64,
            num_configurations: 1,
            ..DeviceQualifierDescriptor::spec_new()
        }),
{
    DeviceQualifierDescriptor {
        descriptor_version: 0x0200,
        device_class: 0x00,
        device_subclass: 0x00,
        device_protocol: 0x00,
        max_packet_size: 64,
        num_configurations: 1,
        ..DeviceQualifierDescriptor::new()
    }
}

/// The bus-powered configuration, drawing 500 mA, with its two vendor-specific interfaces.
pub fn configuration_descriptor_0() -> (r: ConfigurationDescriptor)
    ensures
        r.descriptor_type == DescriptorType::Configuration,
        r.configuration_value == 1,
        r.configuration_string_index == 1,
        r.attributes == 0x80,
        r.max_power == 250,
        r.interface_descriptors@.len() == 2,
        r.interface_descriptors@[0].spec_has(
            0,
            0xff,
            0xff,
            0xff,
            2,
            Seq::<EndpointDescriptor>::empty(),
        ),
        r.interface_descriptors@[1].spec_has(
            1,
            0xff,
            0xff,
            0xff,
            2,
            seq![
                EndpointDescriptor::spec_with(0x81, 0x02, 512, 0),
                EndpointDescriptor::spec_with(0x02, 0x02, 512, 0),
            ],
        ),
{
    ConfigurationDescriptor {
        _length: 9,
        descriptor_type: DescriptorType::Configuration,
        _total_length: 0,
        _num_interfaces: 0,
        configuration_value: 1,
        configuration_string_index: 1,
        attributes: 0x80,
        max_power: 250,
        interface_descriptors: vec![
            InterfaceDescriptor {
                _length: 9,
                _descriptor_type: 4,
                interface_number: 0,
                alternate_setting: 0,
                _num_endpoints: 0,
                interface_class: 0xff,
                interface_subclass: 0xff,
                interface_protocol: 0xff,
                interface_string_index: 2,
                endpoint_descriptors: Vec::new(),
            },
            InterfaceDescriptor {
                _length: 9,
                _descriptor_type: 4,
                interface_number: 1,
                alternate_setting: 0,
                _num_endpoints: 0,
                interface_class: 0xff,
                interface_subclass: 0xff,
                interface_protocol: 0xff,
                interface_string_index: 2,
                endpoint_descriptors: vec![
                    EndpointDescriptor {
                        endpoint_address: 0x81,
                        attributes: 0x02,
                        max_packet_size: 512,
                        interval: 0,
                        ..EndpointDescriptor::new()
                    },
                    EndpointDescriptor {
                        endpoint_address: 0x02,
                        attributes: 0x02,
                        max_packet_size: 512,
                        interval: 0,
                        ..EndpointDescriptor::new()
                    },
                ],
            },
        ],
    }
}

/// The same configuration at the other speed, with full-speed packet sizes.
pub fn other_speed_configuration_descriptor_0() -> (r: ConfigurationDescriptor)
    ensures
        r.descriptor_type == DescriptorType::OtherSpeedConfiguration,
        r.configuration_value == 1,
        r.configuration_string_index == 1,
        r.attributes == 0x80,
        r.max_power == 250,
        r.interface_descriptors@.len() == 2,
        r.interface_descriptors@[0].spec_has(
            0,
            0xff,
            0xff,
            0xff,
            2,
            Seq::<EndpointDescriptor>::empty(),
        ),
        r.interface_descriptors@[1].spec_has(
            1,
            0xff,
            0xff,
            0xff,
            2,
            seq![
                EndpointDescriptor::spec_with(0x81, 0x02, 64, 0),
                EndpointDescriptor::spec_with(0x02, 0x02, 64, 0),
            ],
        ),
{
    ConfigurationDescriptor {
        _length: 9,
        descriptor_type: DescriptorType::OtherSpeedConfiguration,
        _total_length: 0,
        _num_interfaces: 0,
        configuration_value: 1,
        configuration_string_index: 1,
        attributes: 0x80,
        max_power: 250,
        interface_descriptors: vec![
            InterfaceDescriptor {
                _length: 9,
                _descriptor_type: 4,
                interface_number: 0,
                alternate_setting: 0,
                _num_endpoints: 0,
                interface_class: 0xff,
                interface_subclass: 0xff,
                interface_protocol: 0xff,
                interface_string_index: 2,
                endpoint_descriptors: Vec::new(),
            },
            InterfaceDescriptor {
                _length: 9,
                _descriptor_type: 4,
                interface_number: 1,
                alternate_setting: 0,
                _num_endpoints: 0,
                interface_class: 0xff,
                interface_subclass: 0xff,
                interface_protocol: 0xff,
                interface_string_index: 2,
                endpoint_descriptors: vec![
                    EndpointDescriptor {
                        endpoint_address: 0x81,
                        attributes: 0x02,
                        max_packet_size: 64,
                        interval: 0,
                        ..EndpointDescriptor::new()
                    },
                    EndpointDescriptor {
                        endpoint_address: 0x02,
                        attributes: 0x02,
                        max_packet_size: 64,
                        interval: 0,
                        ..EndpointDescriptor::new()
                    },
                ],
            },
        ],
    }
}

/// The string descriptor of the language the device's strings are in:
/// United States English.
pub fn usb_string_descriptor_0() -> (r: StringDescriptorZero)
    ensures
        r.spec_tail() == seq![LanguageId::EnglishUnitedStates],
        r.spec_head() == (StringDescriptorZeroHead { _length: 4, _descriptor_type: 3 }),
{
    let languages = [LanguageId::EnglishUnitedStates];
    StringDescriptorZero::new(languages.as_slice())
}

/// The manufacturer string.
pub fn usb_string_descriptor_1() -> (r: StringDescriptor<'static>)
    ensures
        r.spec_string() == "Great Scott Gadgets"@,
{
    StringDescriptor::new("Great Scott Gadgets")
}

/// The product string.
pub fn usb_string_descriptor_2() -> (r: StringDescriptor<'static>)
    ensures
        r.spec_string() == "Moondancer"@,
{
    StringDescriptor::new("Moondancer")
}

/// The serial number string.
pub fn usb_string_descriptor_3() -> (r: StringDescriptor<'static>)
    ensures
        r.spec_string() == "040"@,
{
    StringDescriptor::new("040")
}

/// The device's strings, in the order of their indices from 1.
pub fn usb_string_descriptors() -> (r: [StringDescriptor<'static>; 3])
    ensures
        r[0].spec_string() == "Great Scott Gadgets"@,
        r[1].spec_string() == "Moondancer"@,
        r[2].spec_string() == "040"@,
{
    [usb_string_descriptor_1(), usb_string_descriptor_2(), usb_string_descriptor_3()]
}

} // verus!
