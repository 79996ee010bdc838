//! The vendor request the Great Communications Protocol is carried by.

use vstd::prelude::*;

use crate::smolusb::control::{spec_direction, Direction, SetupPacket};
use crate::smolusb::device::{actions_view, spec_truncate, ActionView, DriverAction};

verus! {

#[derive(Debug, Clone, Copy, PartialEq, Eq, Structural)]
pub enum VendorRequest {
    // libgreat/firmware/platform/lpc43xx/include/drivers/usb/comms_backend.h
    //   11:  #define LIBGREAT_USB_COMMAND_REQUEST 0x65
    // libgreat/host/pygreat/comms_backends/usb.py
    //   30:  LIBGREAT_REQUEST_NUMBER = 0x65
    UsbCommandRequest,  // 0x65 = 101
    Unknown(u8),
}

/// The vendor request numbered `value`.
pub open spec fn spec_vendor_request(value: u8) -> VendorRequest {
    if value == 0x65 {
        VendorRequest::UsbCommandRequest
    } else {
        VendorRequest::Unknown(value)
    }
}

impl VendorRequest {
    pub fn from(value: u8) -> (r: VendorRequest)
        ensures
            r == spec_vendor_request(value),
    {
        match value {
            0x65 => VendorRequest::UsbCommandRequest,
            _ => VendorRequest::Unknown(value),
        }
    }
}

#[derive(Debug, Clone, Copy, PartialEq, Eq, Structural)]
pub enum VendorRequestValue {
    Start,  // 0x0000
    Cancel,  // 0xdead
    Unknown(u16),
}

/// The meaning of the value field of a command request.
pub open spec fn spec_vendor_request_value(value: u16) -> VendorRequestValue {
    if value == 0x0000 {
        VendorRequestValue::Start
    } else if value == 0xdead {
        VendorRequestValue::Cancel
    } else {
        VendorRequestValue::Unknown(value)
    }
}

impl VendorRequestValue {
    pub fn from(value: u16) -> (r: VendorRequestValue)
        ensures
            r == spec_vendor_request_value(value),
    {
        match value {
            0x0000 => VendorRequestValue::Start,
            0xdead => VendorRequestValue::Cancel,
            _ => VendorRequestValue::Unknown(value),
        }
    }
}

// - a board-id vendor request ------------------------------------------------

/// The board id the SoC firmware reports: `0u32`, little-endian.
pub open spec fn spec_board_id_bytes() -> Seq<u8> {
    seq![0u8, 0, 0, 0]
}

/// The actions for a vendor request to the SoC firmware: a command
/// (value 0) from the host is acknowledged, a command to the host is
/// answered with the board id, cut to the requested length, and
/// acknowledged; a cancel (value `0xdead`) is ignored, and anything else is
/// stalled.
pub open spec fn spec_board_vendor_request(setup_packet: SetupPacket) -> Seq<ActionView> {
    if setup_packet.value == 0x0000 {
        if spec_direction(setup_packet.request_type) == Direction::HostToDevice {
            seq![ActionView::AckStatusStage(setup_packet)]
        } else {
            seq![
                ActionView::Write(0, spec_truncate(spec_board_id_bytes(), setup_packet.length)),
                ActionView::AckStatusStage(setup_packet),
            ]
        }
    } else if setup_packet.value == 0xdead {
        seq![]
    } else {
        seq![ActionView::StallRequest]
    }
}

/// Answers a vendor request to the SoC firmware.
pub fn handle_vendor_request(setup_packet: &SetupPacket, _request: u8) -> (actions: Vec<DriverAction>)
    ensures
        actions_view(actions@) == spec_board_vendor_request(*setup_packet),
{
    let command = setup_packet.value;
    let length = setup_packet.length as usize;
    let mut actions: Vec<DriverAction> = Vec::new();

    match command {
        0x0000 => {  // command
            if setup_packet.direction() == Direction::HostToDevice {
                actions.push(DriverAction::AckStatusStage(*setup_packet));
            } else {
                let board_id = crate::bytes::u32_to_le_vec(0x0000);
                let response = crate::bytes::take_bytes(board_id.as_slice(), length);
                proof {
                    if length >= 4 {
                        assert(board_id@.take(4) =~= board_id@);
                    }
                }
                actions.push(DriverAction::Write(0, response));
                actions.push(DriverAction::AckStatusStage(*setup_packet));
            }
        },
        0xdead => {  // cancel ?
        },
        _ => {
            actions.push(DriverAction::StallRequest);
        },
    }
    assert(actions_view(actions@) =~= spec_board_vendor_request(*setup_packet));
    actions
}

} // verus!
