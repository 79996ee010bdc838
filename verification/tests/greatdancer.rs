use cynthion::class::firmware;
use cynthion::class::greatdancer::{
    self, Greatdancer, PortRequest, RegisterType, State, USBSTS_D_UI, USBSTS_D_URI,
};
use cynthion::error::GreatError;
use cynthion::gcp::ClassId;
use cynthion::smolusb::control::{Direction, SetupPacket};

fn setup_packet() -> SetupPacket {
    SetupPacket { request_type: 0x80, request: 6, value: 0x0100, index: 0, length: 64 }
}

// - greatdancer ------------------------------------------------------------------

#[test]
fn test_greatdancer_verbs_table() {
    let verbs = greatdancer::verbs();
    assert_eq!(verbs.len(), 13);
    for (i, verb) in verbs.iter().enumerate() {
        assert_eq!(verb.id, i as u32);
    }
    assert_eq!(verbs[6].name, "read_setup\0");
    assert_eq!(verbs[8].in_signature, "<B*X\0");
}

#[test]
fn test_register_type() {
    assert_eq!(RegisterType::try_from(0), Ok(RegisterType::UsbStatus));
    assert_eq!(RegisterType::try_from(4), Ok(RegisterType::EndpointNak));
    assert_eq!(RegisterType::try_from(5), Err(GreatError::InvalidArgument));
}

#[test]
fn test_state_get_clears_status() {
    let mut state = State::default();
    state.usb0_status_pending = USBSTS_D_UI | USBSTS_D_URI;
    state.usb0_endpoint_complete_pending = 0b101;
    assert_eq!(state.get(RegisterType::UsbStatus), 0x41);
    assert_eq!(state.get(RegisterType::UsbStatus), 0);
    assert_eq!(state.get(RegisterType::EndpointSetupStatus), 0);
    assert_eq!(state.get(RegisterType::EndpointComplete), 0b101);
    assert_eq!(state.get(RegisterType::EndpointComplete), 0);
    assert_eq!(state.get(RegisterType::EndpointStatus), 0);
    assert_eq!(state.get(RegisterType::EndpointNak), 0);
}

#[test]
fn test_connect() {
    let mut gd = Greatdancer::new();
    gd.state.usb0_status_pending = 0x41;
    assert_eq!(gd.connect(&[0x40, 0x00, 0x01, 0x00]), Ok(vec![]));
    assert_eq!(gd.ep0_max_packet_size, 64);
    assert_eq!(gd.quirk_flags, 1);
    assert_eq!(gd.state.usb0_status_pending, 0);
    assert_eq!(gd.take_requests(), vec![PortRequest::Connect, PortRequest::EnableInterrupts]);
    assert!(gd.take_requests().is_empty());

    // connect takes exactly four bytes
    assert_eq!(gd.connect(&[0x40, 0x00, 0x01]), Err(GreatError::BadMessage));
    assert!(gd.take_requests().is_empty());
}

#[test]
fn test_disconnect_and_bus_reset() {
    let mut gd = Greatdancer::new();
    gd.handle_usb_receive_setup_packet(setup_packet()).unwrap();
    assert_eq!(gd.disconnect(&[]), Ok(vec![]));
    assert!(gd.state.setup_packet.is_none());
    gd.handle_usb_bus_reset().unwrap();
    assert_eq!(gd.bus_reset(&[1, 2]), Ok(vec![]));
    assert_eq!(gd.state.usb0_status_pending, 0);
    assert_eq!(gd.take_requests(), vec![PortRequest::Disconnect, PortRequest::BusReset]);
}

#[test]
fn test_read_setup_relays_the_packet_once() {
    let mut gd = Greatdancer::new();
    gd.handle_usb_receive_setup_packet(setup_packet()).unwrap();
    // the setup status register reports the pending packet
    assert_eq!(gd.get_status(&[1]), Ok(vec![1, 0, 0, 0]));
    let bytes = gd.read_setup(&[0]).unwrap();
    assert_eq!(bytes, [0x80, 6, 0x00, 0x01, 0, 0, 64, 0]);
    let mut array = [0u8; 8];
    array.copy_from_slice(&bytes);
    assert_eq!(SetupPacket::try_from(array).unwrap(), setup_packet());
    assert_eq!(gd.read_setup(&[0]), Err(GreatError::NoMessageOfType));
    assert_eq!(gd.get_status(&[1]), Ok(vec![0, 0, 0, 0]));
    assert_eq!(gd.read_setup(&[]), Err(GreatError::BadMessage));
}

#[test]
fn test_status_is_reported_once() {
    let mut gd = Greatdancer::new();
    gd.handle_usb_bus_reset().unwrap();
    gd.handle_usb_receive_setup_packet(setup_packet()).unwrap();
    assert_eq!(gd.get_status(&[0]), Ok(vec![0x41, 0, 0, 0]));
    assert_eq!(gd.get_status(&[0]), Ok(vec![0, 0, 0, 0]));
    assert_eq!(gd.get_status(&[7]), Err(GreatError::InvalidArgument));
    assert_eq!(gd.get_status(&[0, 0]), Err(GreatError::BadMessage));

    gd.handle_usb_transfer_complete(3).unwrap();
    gd.handle_usb_transfer_complete(0).unwrap();
    assert_eq!(gd.get_status(&[2]), Ok(vec![0b1001, 0, 0, 0]));
    assert_eq!(gd.get_status(&[2]), Ok(vec![0, 0, 0, 0]));
    assert_eq!(gd.get_status(&[3]), Ok(vec![0, 0, 0, 0]));
}

#[test]
fn test_received_data_is_read_once() {
    let mut gd = Greatdancer::new();
    let mut buffer = [0u8; 64];
    buffer[..5].copy_from_slice(&[1, 2, 3, 4, 5]);
    gd.handle_usb_receive_data(1, 3, buffer).unwrap();
    assert_eq!(gd.state.usb0_status_pending, USBSTS_D_UI);
    assert_eq!(gd.get_nonblocking_data_length(&[1]), Ok(vec![3, 0, 0, 0]));
    assert_eq!(gd.dispatch(0xc, &[1]), Ok(vec![3, 0, 0, 0]));
    assert_eq!(gd.finish_nonblocking_read(&[1]), Ok(vec![1, 2, 3]));
    assert_eq!(gd.get_nonblocking_data_length(&[1]), Ok(vec![0, 0, 0, 0]));
    assert_eq!(gd.finish_nonblocking_read(&[1]), Ok(vec![]));

    // control data lands in endpoint 0; more bytes than the buffer holds
    // give the whole buffer
    gd.handle_usb_receive_control_data(100, buffer).unwrap();
    assert_eq!(gd.finish_nonblocking_read(&[0]).unwrap(), buffer.to_vec());
    assert_eq!(gd.finish_nonblocking_read(&[0, 1]), Err(GreatError::BadMessage));
}

#[test]
fn test_set_up_endpoints() {
    let mut gd = Greatdancer::new();
    // endpoint 0x81 with 64 byte packets, control endpoint with 512
    assert_eq!(gd.set_up_endpoints(&[0x81, 64, 0, 2, 0x80, 0x00, 0x02, 0]), Ok(vec![]));
    // endpoint 0x02 with 512 byte packets is more than the class handles
    assert_eq!(
        gd.set_up_endpoints(&[0x81, 64, 0, 2, 0x02, 0x00, 0x02, 2]),
        Err(GreatError::InvalidArgument)
    );
    // 128 bytes is fine; a trailing partial triplet is ignored
    assert_eq!(gd.set_up_endpoints(&[0x01, 128, 0, 2, 0x02, 0xff, 0xff]), Ok(vec![]));
    assert_eq!(gd.set_up_endpoints(&[]), Ok(vec![]));
}

#[test]
fn test_send_on_endpoint() {
    let mut gd = Greatdancer::new();
    assert_eq!(gd.send_on_endpoint(&[0x81, 0xaa, 0xbb]), Ok(vec![]));
    assert_eq!(
        gd.take_requests(),
        vec![
            PortRequest::WriteRef(0x81, vec![0xaa, 0xbb]),
            PortRequest::Ack(0x81, Direction::DeviceToHost),
        ]
    );
    assert_eq!(gd.send_on_endpoint(&[]), Err(GreatError::BadMessage));
}

#[test]
fn test_one_byte_verbs() {
    let mut gd = Greatdancer::new();
    assert_eq!(gd.set_address(&[5, 0]), Ok(vec![]));
    assert_eq!(gd.set_address(&[5]), Err(GreatError::BadMessage));
    assert_eq!(gd.stall_endpoint(&[0x81]), Ok(vec![]));
    assert_eq!(gd.clean_up_transfer(&[0x81]), Ok(vec![]));
    assert_eq!(gd.start_nonblocking_read(&[2]), Ok(vec![]));
    assert_eq!(gd.get_nonblocking_data_length(&[1]), Ok(vec![0, 0, 0, 0]));
    assert_eq!(gd.get_nonblocking_data_length(&[2]), Ok(vec![]));
    assert_eq!(gd.get_nonblocking_data_length(&[]), Err(GreatError::BadMessage));
    assert!(gd.take_requests().is_empty());
}

#[test]
fn test_greatdancer_dispatch() {
    let mut gd = Greatdancer::new();
    assert_eq!(gd.dispatch(0x0, &[8, 0, 0, 0]), Ok(vec![]));
    assert_eq!(gd.ep0_max_packet_size, 8);
    gd.handle_usb_receive_setup_packet(setup_packet()).unwrap();
    assert_eq!(gd.dispatch(0x6, &[0]), Ok(vec![0x80, 6, 0x00, 0x01, 0, 0, 64, 0]));
    assert_eq!(gd.dispatch(0x5, &[0]), Ok(vec![1, 0, 0, 0]));
    assert_eq!(gd.dispatch(0xd, &[]), Err(GreatError::GcpVerbNotFound(ClassId::greatdancer, 0xd)));
    assert_eq!(gd.dispatch(0x8, &[1, 9]), Ok(vec![]));
    assert_eq!(
        gd.take_requests(),
        vec![
            PortRequest::Connect,
            PortRequest::EnableInterrupts,
            PortRequest::WriteRef(1, vec![9]),
            PortRequest::Ack(1, Direction::DeviceToHost),
        ]
    );
}

// - firmware class -----------------------------------------------------------------

#[test]
fn test_firmware_class() {
    assert_eq!(firmware::verbs()[0].name, "initialize\0");
    assert_eq!(firmware::initialize(&[]), Ok(vec![8, 0, 0, 0, 1, 0, 0, 0]));
    assert_eq!(firmware::full_erase(&[1, 2, 3]), Ok(vec![]));
    assert_eq!(firmware::page_erase(&[0, 0, 0, 0]), Ok(vec![]));
    assert_eq!(firmware::page_erase(&[0, 0, 0]), Err(GreatError::GcpInvalidArguments));
    assert_eq!(firmware::write_page(&[0, 0, 0, 0, 1, 2, 3]), Ok(vec![]));
    assert_eq!(firmware::write_page(&[0, 0]), Err(GreatError::GcpInvalidArguments));
    assert_eq!(firmware::read_page(&[0, 1, 0, 0]), Ok(vec![0; 8]));
    assert_eq!(firmware::read_page(&[0, 1, 0, 0, 0]), Err(GreatError::GcpInvalidArguments));
    assert_eq!(firmware::dispatch(0, &[]), Ok(vec![8, 0, 0, 0, 1, 0, 0, 0]));
    assert_eq!(firmware::dispatch(4, &[0, 0, 0, 0]), Ok(vec![0; 8]));
    assert_eq!(firmware::dispatch(5, &[]), Err(GreatError::GcpVerbNotFound(ClassId::firmware, 5)));
}
