use cynthion::cdc_serial::{self, UsbInterface};
use cynthion::smolusb::class::cdc::ch34x;
use cynthion::smolusb::control::SetupPacket;
use cynthion::smolusb::descriptor::StringDescriptor;
use cynthion::smolusb::device::DriverAction;
use cynthion::speed_test::{SpeedTest, TestCommand, TestStats};
use cynthion::timer::Event;
use cynthion::usb::control::{
    DescriptorType, Direction, Feature, Recipient, Request, RequestType, MASK_DIRECTION_IN,
};
use cynthion::usb::vendor::{self, VendorRequest, VendorRequestValue};
use cynthion::usb::ErrorKind;

// - speed test -------------------------------------------------------------------

#[test]
fn test_test_command_from() {
    assert_eq!(TestCommand::from(0x23), TestCommand::In);
    assert_eq!(TestCommand::from(0x42), TestCommand::Out);
    assert_eq!(TestCommand::from(0xff), TestCommand::Error);
    assert_eq!(TestCommand::from(0x00), TestCommand::Stop);
}

#[test]
fn test_stats_update_in() {
    let mut stats = TestStats::new();
    assert_eq!(stats.min_write_time, usize::MAX);
    stats.update_in(10, 3, false);
    stats.update_in(7, 5, true);
    stats.update_in(12, 4, true);
    assert_eq!(stats.max_write_time, 12);
    assert_eq!(stats.min_write_time, 7);
    assert_eq!(stats.max_flush_time, 5);
    assert_eq!(stats.min_flush_time, 3);
    assert_eq!(stats.reset_count, 2);
    stats.reset();
    assert_eq!(stats, TestStats::new());
}

#[test]
fn test_speed_test_commands() {
    let mut test = SpeedTest::new();
    assert_eq!(test.command, TestCommand::Stop);
    assert!(test.handle_command_packet(1, 0x23));
    assert_eq!(test.command, TestCommand::In);
    test.record_write(10, 2, true);
    test.record_queue_length(4);
    test.record_queue_length(2);
    assert_eq!(test.stats.write_count, 1);
    assert_eq!(test.stats.reset_count, 1);
    assert_eq!(test.stats.max_queue_length, 4);

    // a stop keeps the statistics for the report
    assert!(test.handle_command_packet(1, 0x00));
    assert_eq!(test.command, TestCommand::Stop);
    assert_eq!(test.stats.write_count, 1);

    // a new test starts with fresh statistics
    assert!(test.handle_command_packet(1, 0x42));
    assert_eq!(test.command, TestCommand::Out);
    assert_eq!(test.stats, TestStats::new());

    // packets of the wrong length change nothing
    assert!(!test.handle_command_packet(2, 0x23));
    assert_eq!(test.command, TestCommand::Out);

    test.handle_setup_packet();
    assert_eq!(test.command, TestCommand::Stop);
}

// - cdc serial ---------------------------------------------------------------------

#[test]
fn test_cdc_vendor_and_string_requests() {
    let packet = SetupPacket { request_type: 0xc0, request: 0x5f, value: 0, index: 0, length: 2 };
    assert_eq!(
        cdc_serial::handle_vendor_request(&packet, 0x5f),
        vec![DriverAction::Write(0, vec![0, 0]), DriverAction::AckStatusStage(packet)]
    );
    assert_eq!(
        cdc_serial::handle_string_request(&packet, 4),
        vec![DriverAction::Write(0, vec![]), DriverAction::AckStatusStage(packet)]
    );
    assert_eq!(ch34x::VendorRequest::Version.value(), 0x5f);
    assert_eq!(ch34x::VendorRequest::ModemOut.value(), 0xa4);
}

#[test]
fn test_cdc_loopback() {
    let mut buffer = [0u8; 64];
    buffer[..3].copy_from_slice(&[7, 8, 9]);
    assert_eq!(
        cdc_serial::loopback(UsbInterface::Aux, 2, 2, &buffer),
        vec![
            (UsbInterface::Target, DriverAction::Write(2, vec![7, 8])),
            (UsbInterface::Control, DriverAction::Write(2, vec![7, 8])),
        ]
    );
    assert_eq!(cdc_serial::loopback(UsbInterface::Target, 0, 2, &buffer), vec![]);
}

// - usb -------------------------------------------------------------------------------

#[test]
fn test_usb_control_conversions() {
    assert_eq!(Recipient::try_from(2), Ok(Recipient::Endpoint));
    assert_eq!(Recipient::try_from(31), Ok(Recipient::Reserved));
    assert_eq!(Recipient::try_from(32), Err(ErrorKind::FailedConversion));
    assert_eq!(RequestType::try_from(2), Ok(RequestType::Vendor));
    assert_eq!(RequestType::try_from(4), Err(ErrorKind::FailedConversion));
    assert_eq!(Direction::try_from(1), Ok(Direction::DeviceToHost));
    assert_eq!(Direction::try_from(2), Err(ErrorKind::FailedConversion));
    assert_eq!(Request::try_from(12), Ok(Request::SynchronizeFrame));
    assert_eq!(Request::try_from(13), Err(ErrorKind::FailedConversion));
    assert_eq!(Request::try_from(4), Err(ErrorKind::FailedConversion));
    assert_eq!(Feature::try_from(0), Ok(Feature::EndpointHalt));
    assert_eq!(Feature::try_from(3), Err(ErrorKind::FailedConversion));
    assert_eq!(DescriptorType::try_from(11), Ok(DescriptorType::InterfaceAssociation));
    assert_eq!(DescriptorType::try_from(12), Err(ErrorKind::FailedConversion));
    assert_eq!(MASK_DIRECTION_IN, 0x80);
    assert_eq!(ErrorKind::FailedConversion.description(), "TODO FailedConversion");
}

#[test]
fn test_vendor_requests() {
    assert_eq!(VendorRequest::from(0x65), VendorRequest::UsbCommandRequest);
    assert_eq!(VendorRequest::from(0x66), VendorRequest::Unknown(0x66));
    assert_eq!(VendorRequestValue::from(0x0000), VendorRequestValue::Start);
    assert_eq!(VendorRequestValue::from(0xdead), VendorRequestValue::Cancel);
    assert_eq!(VendorRequestValue::from(0x0001), VendorRequestValue::Unknown(1));
}

#[test]
fn test_board_id_vendor_request() {
    let to_device = SetupPacket { request_type: 0x40, request: 0x65, value: 0, index: 0, length: 0 };
    assert_eq!(
        vendor::handle_vendor_request(&to_device, 0x65),
        vec![DriverAction::AckStatusStage(to_device)]
    );
    let to_host = SetupPacket { request_type: 0xc0, request: 0x65, value: 0, index: 0, length: 2 };
    assert_eq!(
        vendor::handle_vendor_request(&to_host, 0x65),
        vec![DriverAction::Write(0, vec![0, 0]), DriverAction::AckStatusStage(to_host)]
    );
    let cancel = SetupPacket { request_type: 0xc0, request: 0x65, value: 0xdead, index: 0, length: 2 };
    assert_eq!(vendor::handle_vendor_request(&cancel, 0x65), vec![]);
    let other = SetupPacket { request_type: 0xc0, request: 0x65, value: 3, index: 0, length: 2 };
    assert_eq!(vendor::handle_vendor_request(&other, 0x65), vec![DriverAction::StallRequest]);
}

#[test]
fn test_timer_event() {
    assert_eq!(Event::TimeOut, Event::TimeOut);
}

#[test]
fn static_test_string_descriptor() {
    let descriptor = StringDescriptor::new("TRI-FIFO Example");
    let mut iter = descriptor.iter();
    let mut count = 0;
    while let Some(_byte) = iter.next() {
        count += 1;
    }
    assert_eq!(count, 2 + 2 * 16);
}

#[test]
fn test_board_information() {
    let info = cynthion::firmware::board_information();
    assert_eq!(info.board_id, [0, 0, 0, 0]);
    assert_eq!(info.version_string, "v2023.0.1\0");
    assert_eq!(info.part_id, [0x30, 0xa, 0x00, 0xa0, 0x5e, 0x4f, 0x60, 0x00]);
    assert_eq!(info.serial_number[8..], [0xe6, 0x67, 0xcc, 0x57, 0x57, 0x53, 0x6f, 0x30]);
}

#[test]
fn test_speed_test_data() {
    let data = cynthion::speed_test::test_data();
    assert_eq!(data.len(), 512);
    assert_eq!(data[0], 0);
    assert_eq!(data[255], 255);
    assert_eq!(data[256], 0);
    assert_eq!(data[511], 255);
}

#[test]
fn test_control_values() {
    assert_eq!(cynthion::smolusb::control::Direction::DeviceToHost.value(), 0x80);
    assert_eq!(cynthion::smolusb::control::Direction::HostToDevice.value(), 0x00);
    assert_eq!(cynthion::smolusb::control::Recipient::Other.value(), 3);
    assert_eq!(cynthion::smolusb::control::RequestType::Vendor.value(), 2);
    assert_eq!(cynthion::smolusb::control::Feature::DeviceRemoteWakeup.value(), 1);
    assert_eq!(Direction::DeviceToHost.value(), 1);
    assert_eq!(Recipient::Reserved.value(), 4);
    assert_eq!(RequestType::Class.value(), 1);
    assert_eq!(Request::SynchronizeFrame.value(), 12);
    assert_eq!(Feature::EndpointHalt.value(), 0);
    assert_eq!(DescriptorType::InterfaceAssociation.value(), 11);
}
