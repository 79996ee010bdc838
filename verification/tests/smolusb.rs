use cynthion::smolusb::control::{
    Direction, Feature, Recipient, Request, RequestType, SetupPacket,
};
use cynthion::smolusb::class::cdc;
use cynthion::smolusb::class::cynthion as cynthion_descriptors;
use cynthion::speed_test;
use cynthion::smolusb::descriptor::{
    CompositeIterator, ConfigurationDescriptor, DescriptorType, DeviceDescriptor, EndpointDescriptor,
    InterfaceDescriptor, LanguageId, StringDescriptor, StringDescriptorZero, StringDescriptorZeroHead,
    Utf16ByteIterator,
};
use cynthion::smolusb::device::{DeviceState, DriverAction, Speed, UsbDevice};
use cynthion::smolusb::traits::{
    AsByteSliceIterator, ControlRead, EndpointRead, EndpointWrite, EndpointWriteRef,
    UsbDriverOperations,
};
use cynthion::smolusb::{EndpointIn, ErrorKind};

use std::cell::RefCell;

// - a driver that records what it is asked --------------------------------------

#[derive(Default)]
struct RecordingDriver {
    calls: RefCell<Vec<String>>,
}

impl RecordingDriver {
    fn record(&self, call: String) {
        self.calls.borrow_mut().push(call);
    }
}

impl ControlRead for RecordingDriver {
    fn read_control(&self, buffer: &mut [u8]) -> usize {
        let packet = [0x80, 0x06, 0x00, 0x01, 0x00, 0x00, 0x40, 0x00];
        buffer[..8].copy_from_slice(&packet);
        8
    }
}

impl EndpointRead for RecordingDriver {
    fn read(&self, _endpoint: u8, buffer: &mut [u8]) -> usize {
        buffer[0] = 0x23;
        1
    }
}

impl EndpointWrite for RecordingDriver {
    fn write(&self, endpoint: u8, bytes: &[u8]) {
        self.record(format!("write {} {:?}", endpoint, bytes));
    }
}

impl EndpointWriteRef for RecordingDriver {
    fn write_ref(&self, endpoint: u8, bytes: &[u8]) {
        self.record(format!("write_ref {} {:?}", endpoint, bytes));
    }
}

impl UsbDriverOperations for RecordingDriver {
    fn connect(&self) -> u8 {
        self.record("connect".to_string());
        1
    }
    fn disconnect(&self) {
        self.record("disconnect".to_string());
    }
    fn reset(&self) -> u8 {
        self.record("reset".to_string());
        0
    }
    fn bus_reset(&self) -> u8 {
        self.record("bus_reset".to_string());
        0
    }
    fn ack_status_stage(&self, packet: &SetupPacket) {
        self.record(format!("ack_status_stage {}", packet.request));
    }
    fn ack(&self, endpoint: u8, _direction: Direction) {
        self.record(format!("ack {}", endpoint));
    }
    fn set_address(&self, address: u8) {
        self.record(format!("set_address {}", address));
    }
    fn stall_request(&self) {
        self.record("stall_request".to_string());
    }
    fn stall_endpoint_address(&self, endpoint: u8, state: bool) {
        self.record(format!("stall_endpoint_address {} {}", endpoint, state));
    }
    fn stall_endpoint_in(&self, endpoint: u8) {
        self.record(format!("stall_endpoint_in {}", endpoint));
    }
    fn stall_endpoint_out(&self, endpoint: u8) {
        self.record(format!("stall_endpoint_out {}", endpoint));
    }
    fn clear_feature_endpoint_halt(&self, endpoint_address: u8) {
        self.record(format!("clear_feature_endpoint_halt {}", endpoint_address));
    }
}

// - fixtures -------------------------------------------------------------------

fn device_descriptor() -> DeviceDescriptor {
    DeviceDescriptor {
        descriptor_version: 0x0200,
        device_class: 0x00,
        device_subclass: 0x00,
        device_protocol: 0x00,
        max_packet_size: 64,
        vendor_id: 0x1d50,
        product_id: 0x60e6,
        device_version_number: 0x0040,
        manufacturer_string_index: 1,
        product_string_index: 2,
        serial_string_index: 3,
        num_configurations: 1,
        ..DeviceDescriptor::new()
    }
}

fn configuration_descriptor() -> ConfigurationDescriptor {
    ConfigurationDescriptor {
        _length: 9,
        descriptor_type: DescriptorType::Configuration,
        _total_length: 0,
        _num_interfaces: 0,
        configuration_value: 1,
        configuration_string_index: 1,
        attributes: 0x80,
        max_power: 250,
        interface_descriptors: vec![InterfaceDescriptor {
            _length: 9,
            _descriptor_type: 4,
            interface_number: 0,
            alternate_setting: 0,
            _num_endpoints: 0,
            interface_class: 0xff,
            interface_subclass: 0xff,
            interface_protocol: 0xff,
            interface_string_index: 2,
            endpoint_descriptors: vec![EndpointDescriptor {
                endpoint_address: 0x81,
                attributes: 0x02,
                max_packet_size: 512,
                interval: 0,
                ..EndpointDescriptor::new()
            }],
        }],
    }
}

fn packet(request_type: u8, request: u8, value: u16, index: u16, length: u16) -> SetupPacket {
    SetupPacket { request_type, request, value, index, length }
}

// - control ----------------------------------------------------------------------

#[test]
fn test_setup_packet_round_trip() {
    let bytes = [0x80, 0x06, 0x00, 0x01, 0x09, 0x04, 0x12, 0x00];
    let packet = SetupPacket::try_from(bytes).unwrap();
    assert_eq!(packet.request_type, 0x80);
    assert_eq!(packet.request, 6);
    assert_eq!(packet.value, 0x0100);
    assert_eq!(packet.index, 0x0409);
    assert_eq!(packet.length, 18);
    assert_eq!(packet.as_bytes(), bytes);
}

#[test]
fn test_setup_packet_fields() {
    let p = packet(0b1100_0010, 5, 0, 0, 0);
    assert_eq!(p.direction(), Direction::DeviceToHost);
    assert_eq!(p.request_type(), RequestType::Vendor);
    assert_eq!(p.recipient(), Recipient::Endpoint);
    assert_eq!(p.request(), Ok(Request::SetAddress));
    assert_eq!(packet(0x21, 2, 0, 0, 0).request(), Err(ErrorKind::FailedConversion));
    assert_eq!(packet(0x21, 0x40, 0, 0, 0).request(), Ok(Request::ClassOrVendor(0x40)));
    assert_eq!(packet(0x1f, 0, 0, 0, 0).recipient(), Recipient::Reserved);
    assert_eq!(Feature::try_from(1), Ok(Feature::DeviceRemoteWakeup));
    assert_eq!(Feature::try_from(2), Err(ErrorKind::FailedConversion));
}

// - descriptors ------------------------------------------------------------------

#[test]
fn test_device_descriptor_bytes() {
    let bytes = device_descriptor().as_iter();
    assert_eq!(
        bytes,
        [18, 1, 0x00, 0x02, 0, 0, 0, 64, 0x50, 0x1d, 0xe6, 0x60, 0x40, 0x00, 1, 2, 3, 1]
    );
}

#[test]
fn test_configuration_descriptor_bytes() {
    let configuration = configuration_descriptor();
    assert_eq!(configuration.length(), 9);
    assert_eq!(configuration.descriptor_type(), 2);
    assert_eq!(configuration.num_interfaces(), 1);
    assert_eq!(configuration.total_length(), 9 + 9 + 7);
    let mut iter = configuration.iter();
    let mut bytes = Vec::new();
    while let Some(b) = iter.next() {
        bytes.push(b);
    }
    assert_eq!(
        bytes,
        [
            9, 2, 25, 0, 1, 1, 1, 0x80, 250, // configuration
            9, 4, 0, 0, 1, 0xff, 0xff, 0xff, 2, // interface
            7, 5, 0x81, 0x02, 0x00, 0x02, 0, // endpoint
        ]
    );
}

#[test]
fn test_string_descriptors() {
    let descriptor = StringDescriptor::new("ab");
    assert_eq!(descriptor.length(), 6);
    assert_eq!(descriptor.descriptor_type(), 3);
    let mut iter = descriptor.iter();
    let mut bytes = Vec::new();
    while let Some(b) = iter.next() {
        bytes.push(b);
    }
    assert_eq!(bytes, [6, 3, b'a', 0, b'b', 0]);

    let zero = StringDescriptorZero::new(&[LanguageId::EnglishUnitedStates]);
    let mut iter = zero.iter();
    let mut bytes = Vec::new();
    while let Some(b) = iter.next() {
        bytes.push(b);
    }
    assert_eq!(bytes, [4, 3, 0x09, 0x04]);

    // a character outside the basic multilingual plane takes two code units
    let mut iter = Utf16ByteIterator::new("\u{1F600}");
    let mut bytes = Vec::new();
    while let Some(b) = iter.next() {
        bytes.push(b);
    }
    assert_eq!(bytes, [0x3d, 0xd8, 0x00, 0xde]);
}

#[test]
fn test_descriptor_types() {
    assert_eq!(DescriptorType::try_from(6), Ok(DescriptorType::DeviceQualifier));
    assert_eq!(DescriptorType::try_from(0), Err(ErrorKind::FailedConversion));
    assert_eq!(DescriptorType::String.value(), 3);
}

// - device -----------------------------------------------------------------------

#[test]
fn test_get_descriptor_is_cut_to_requested_length() {
    let driver = RecordingDriver::default();
    let dd = device_descriptor();
    let cd = configuration_descriptor();
    let zero = StringDescriptorZero::new(&[LanguageId::EnglishUnitedStates]);
    let s1 = StringDescriptor::new("Great Scott Gadgets");
    let strings = [&s1];
    let mut device = UsbDevice::new(&driver, &dd, &cd, &zero, &strings);

    let request = packet(0x80, 6, 0x0100, 0, 8);
    let actions = device.setup_request(&request);
    assert_eq!(
        actions,
        vec![
            DriverAction::WriteRef(0, vec![18, 1, 0x00, 0x02, 0, 0, 0, 64]),
            DriverAction::AckStatusStage(request),
        ]
    );

    // asking for more than there is gives all of it
    let request = packet(0x80, 6, 0x0300, 0, 255);
    let actions = device.setup_request(&request);
    assert_eq!(
        actions,
        vec![DriverAction::Write(0, vec![4, 3, 0x09, 0x04]), DriverAction::AckStatusStage(request)]
    );

    // a string index past the last string is stalled
    let request = packet(0x80, 6, 0x0303, 0, 255);
    assert_eq!(device.setup_request(&request), vec![DriverAction::StallRequest]);

    // an unknown descriptor type is stalled
    let request = packet(0x80, 6, 0x4000, 0, 255);
    assert_eq!(device.setup_request(&request), vec![DriverAction::StallRequest]);
}

#[test]
fn test_set_address_and_configuration() {
    let driver = RecordingDriver::default();
    let dd = device_descriptor();
    let cd = configuration_descriptor();
    let zero = StringDescriptorZero::new(&[LanguageId::EnglishUnitedStates]);
    let strings: [&StringDescriptor; 0] = [];
    let mut device = UsbDevice::new(&driver, &dd, &cd, &zero, &strings);
    assert_eq!(device.state, DeviceState::Reset);

    let request = packet(0x00, 5, 0x00ab, 0, 0);
    assert_eq!(
        device.setup_request(&request),
        vec![DriverAction::AckStatusStage(request), DriverAction::SetAddress(0x2b)]
    );
    assert_eq!(device.state, DeviceState::Address);

    let request = packet(0x00, 9, 2, 0, 0);
    assert_eq!(
        device.setup_request(&request),
        vec![DriverAction::AckStatusStage(request), DriverAction::StallRequest]
    );
    assert_eq!(device.state, DeviceState::Address);

    let request = packet(0x00, 9, 1, 0, 0);
    assert_eq!(device.setup_request(&request), vec![DriverAction::AckStatusStage(request)]);
    assert_eq!(device.state, DeviceState::Configured);

    let request = packet(0x80, 8, 0, 0, 1);
    assert_eq!(
        device.setup_request(&request),
        vec![DriverAction::Write(0, vec![1]), DriverAction::AckStatusStage(request)]
    );
}

#[test]
fn test_features() {
    let driver = RecordingDriver::default();
    let dd = device_descriptor();
    let cd = configuration_descriptor();
    let zero = StringDescriptorZero::new(&[LanguageId::EnglishUnitedStates]);
    let strings: [&StringDescriptor; 0] = [];
    let mut device = UsbDevice::new(&driver, &dd, &cd, &zero, &strings);

    // set and clear remote wakeup
    assert_eq!(device.setup_request(&packet(0x00, 3, 1, 0, 0)), vec![]);
    assert!(device.feature_remote_wakeup);
    assert_eq!(device.setup_request(&packet(0x00, 1, 1, 0, 0)), vec![]);
    assert!(!device.feature_remote_wakeup);

    // remote wakeup sent to an interface is stalled
    assert_eq!(device.setup_request(&packet(0x01, 3, 1, 0, 0)), vec![DriverAction::StallRequest]);

    // endpoint halt
    assert_eq!(
        device.setup_request(&packet(0x02, 3, 0, 0x0081, 0)),
        vec![DriverAction::StallEndpoint(0x81, true)]
    );
    assert_eq!(
        device.setup_request(&packet(0x02, 1, 0, 0x0081, 0)),
        vec![DriverAction::StallEndpoint(0x81, false)]
    );

    // unknown feature
    assert_eq!(device.setup_request(&packet(0x00, 3, 7, 0, 0)), vec![DriverAction::StallRequest]);
}

#[test]
fn test_non_standard_requests_are_stalled() {
    let driver = RecordingDriver::default();
    let dd = device_descriptor();
    let cd = configuration_descriptor();
    let zero = StringDescriptorZero::new(&[LanguageId::EnglishUnitedStates]);
    let strings: [&StringDescriptor; 0] = [];
    let mut device = UsbDevice::new(&driver, &dd, &cd, &zero, &strings);
    assert_eq!(device.setup_request(&packet(0x40, 5, 1, 0, 0)), vec![DriverAction::StallRequest]);
    assert_eq!(device.state, DeviceState::Reset);
    // a standard request number that is no request
    assert_eq!(device.setup_request(&packet(0x00, 2, 0, 0, 0)), vec![DriverAction::StallRequest]);
    // GET_STATUS is not answered
    assert_eq!(device.setup_request(&packet(0x80, 0, 0, 0, 2)), vec![DriverAction::StallRequest]);
}

#[test]
fn test_handle_setup_request_drives_the_driver() {
    let driver = RecordingDriver::default();
    let dd = device_descriptor();
    let cd = configuration_descriptor();
    let zero = StringDescriptorZero::new(&[LanguageId::EnglishUnitedStates]);
    let strings: [&StringDescriptor; 0] = [];
    let mut device = UsbDevice::new(&driver, &dd, &cd, &zero, &strings);
    assert_eq!(device.connect(), Speed::Full);
    assert!(device.handle_setup_request(&packet(0x00, 5, 3, 0, 0)).is_ok());
    assert_eq!(
        *driver.calls.borrow(),
        vec!["connect".to_string(), "ack_status_stage 5".to_string(), "set_address 3".to_string()]
    );
    assert_eq!(device.reset(), Speed::High);
    assert_eq!(device.reset_count, 1);
    assert_eq!(device.state, DeviceState::Reset);

    let read = UsbDevice::<RecordingDriver>::_handle_interrupt_ep_control(&driver).unwrap();
    assert_eq!(read, packet(0x80, 6, 0x0100, 0, 0x40));
}

#[test]
fn test_speed_from_gateware_bits() {
    assert_eq!(Speed::from(0), Speed::High);
    assert_eq!(Speed::from(1), Speed::Full);
    assert_eq!(Speed::from(2), Speed::Low);
    assert_eq!(Speed::from(7), Speed::SuperSpeed);
}

#[test]
fn test_endpoint_in_send() {
    assert_eq!(EndpointIn {}.send(&[1, 2, 3]).unwrap(), 32);
}

// - composite descriptors ------------------------------------------------------

#[test]
fn test_composite_iterator_sets_total_length() {
    let mut head = StringDescriptorZeroHead::new();
    let tail = [LanguageId::EnglishUnitedStates, LanguageId::EnglishUnitedKingdom];
    let mut iter = CompositeIterator::new_mut(&mut head, &tail);
    let mut bytes = Vec::new();
    while let Some(b) = iter.next() {
        bytes.push(b);
    }
    assert_eq!(head._length, 6);
    assert_eq!(bytes, [6, 3, 0x09, 0x04, 0x09, 0x08]);
}

// - device descriptor sets -------------------------------------------------------

#[test]
fn test_cdc_descriptors() {
    assert_eq!(
        cdc::device_descriptor().as_iter(),
        [18, 1, 0x00, 0x02, 0xff, 0, 0, 8, 0x86, 0x1a, 0x23, 0x75, 0x64, 0x02, 1, 2, 3, 1]
    );
    let configuration = cdc::configuration_descriptor_0();
    assert_eq!(configuration.total_length(), 9 + 9 + 3 * 7);
    assert_eq!(configuration.max_power, 50);
    let interface = cdc::interface_descriptor_0();
    assert_eq!(interface.endpoint_descriptors.len(), 3);
    assert_eq!(cdc::endpoint_descriptor_81().as_iter(), [7, 5, 0x81, 0x03, 8, 0, 1]);
    assert_eq!(cdc::endpoint_descriptor_82().as_iter(), [7, 5, 0x82, 0x02, 0x00, 0x02, 0]);
    assert_eq!(cdc::endpoint_descriptor_02().as_iter(), [7, 5, 0x02, 0x02, 0x00, 0x02, 0]);
    let strings = cdc::usb_string_descriptors();
    assert_eq!(strings[1].length(), 2 + 2 * 20);
    let mut iter = cdc::usb_string_descriptor_0().iter();
    let mut bytes = Vec::new();
    while let Some(b) = iter.next() {
        bytes.push(b);
    }
    assert_eq!(bytes, [4, 3, 0x09, 0x04]);
}

#[test]
fn test_cynthion_descriptors() {
    let device = cynthion_descriptors::device_descriptor();
    assert_eq!(device.vendor_id, 0x1d50);
    assert_eq!(device.product_id, 0x60e6);
    assert_eq!(cynthion_descriptors::device_qualifier_descriptor().as_iter(), [10, 6, 0x00, 0x02, 0, 0, 0, 64, 1, 0]);
    let configuration = cynthion_descriptors::configuration_descriptor_0();
    assert_eq!(configuration.total_length(), 9 + 9 + 9 + 2 * 7);
    let mut iter = configuration.iter();
    let mut bytes = Vec::new();
    while let Some(b) = iter.next() {
        bytes.push(b);
    }
    assert_eq!(&bytes[..9], [9, 2, 41, 0, 2, 1, 1, 0x80, 250]);
    assert_eq!(cynthion_descriptors::other_speed_configuration_descriptor_0().descriptor_type(), 7);
    assert_eq!(cynthion_descriptors::usb_string_descriptors()[1].length(), 2 + 2 * 10);
}

#[test]
fn test_speed_test_descriptors() {
    assert_eq!(speed_test::usb_device_descriptor().product_id, 0x0f3b);
    let configuration = speed_test::usb_configuration_descriptor_0();
    assert_eq!(configuration.total_length(), 9 + 9 + 3 * 7);
    let other = speed_test::usb_other_speed_configuration_descriptor_0();
    assert_eq!(other.interface_descriptors[0].endpoint_descriptors[2].max_packet_size, 64);
    assert_eq!(speed_test::usb_string_descriptors()[0].length(), 2 + 2 * 4);
    assert_eq!(speed_test::usb_device_qualifier_descriptor().max_packet_size, 64);
    let _ = speed_test::usb_string_descriptor_0();
}

#[test]
fn test_zero_length_configuration_request() {
    let driver = RecordingDriver::default();
    let dd = device_descriptor();
    let mut cd = configuration_descriptor();
    cd.interface_descriptors.clear();
    let zero = StringDescriptorZero::new(&[LanguageId::EnglishUnitedStates]);
    let strings: [&StringDescriptor; 0] = [];
    let mut device = UsbDevice::new(&driver, &dd, &cd, &zero, &strings);
    let request = packet(0x80, 6, 0x0200, 0, 0);
    assert_eq!(
        device.setup_request(&request),
        vec![DriverAction::Write(0, vec![]), DriverAction::AckStatusStage(request)]
    );
}
