//! CDC serial loopback: three ports enumerate as CH34x serial adapters,
//! and data the host sends to one port comes out of the other two.

use vstd::prelude::*;

use crate::bytes::take_bytes;
use crate::class::greatdancer::{spec_take_at_most, EP_MAX_RECEIVE_LENGTH};
use crate::smolusb::control::SetupPacket;
use crate::smolusb::device::{actions_view, ActionView, DriverAction};

verus! {

/// The board's USB ports.
#[derive(Debug, Clone, Copy, PartialEq, Eq, Structural)]
pub enum UsbInterface {
    Target,
    Aux,
    Control,
}

/// The vendor requests of the CH34x serial driver are answered with two
/// zero bytes, whatever they ask.
pub open spec fn spec_vendor_request_actions(setup_packet: SetupPacket) -> Seq<ActionView> {
    seq![ActionView::Write(0, seq![0u8, 0]), ActionView::AckStatusStage(setup_packet)]
}

/// Answers a CH34x vendor request; we can just spoof these.
pub fn handle_vendor_request(setup_packet: &SetupPacket, _request: u8) -> (actions: Vec<DriverAction>)
    ensures
        actions_view(actions@) == spec_vendor_request_actions(*setup_packet),
{
    let mut actions: Vec<DriverAction> = Vec::new();
    let zeros: Vec<u8> = vec![0, 0];
    assert(zeros@ =~= seq![0u8, 0]);
    actions.push(DriverAction::Write(0, zeros));
    actions.push(DriverAction::AckStatusStage(*setup_packet));
    assert(actions_view(actions@) =~= spec_vendor_request_actions(*setup_packet));
    actions
}

/// Answers a string request with an empty string; we can just spoof this
/// too.
pub fn handle_string_request(setup_packet: &SetupPacket, _index: u8) -> (actions: Vec<DriverAction>)
    ensures
        actions_view(actions@) == seq![
            ActionView::Write(0, Seq::empty()),
            ActionView::AckStatusStage(*setup_packet),
        ],
{
    let mut actions: Vec<DriverAction> = Vec::new();
    actions.push(DriverAction::Write(0, Vec::new()));
    actions.push(DriverAction::AckStatusStage(*setup_packet));
    assert(actions_view(actions@) =~= seq![
        ActionView::Write(0, Seq::empty()),
        ActionView::AckStatusStage(*setup_packet),
    ]);
    actions
}

/// The two ports that data arriving on `port` is sent on, in order.
pub open spec fn spec_other_ports(port: UsbInterface) -> (UsbInterface, UsbInterface) {
    match port {
        UsbInterface::Target => (UsbInterface::Aux, UsbInterface::Control),
        UsbInterface::Aux => (UsbInterface::Target, UsbInterface::Control),
        UsbInterface::Control => (UsbInterface::Target, UsbInterface::Aux),
    }
}

/// Forwards data that arrived on a port: data on any endpoint but the
/// control endpoint is written, on the same endpoint, to the two other
/// ports. Returns each write with the port it is for.
pub fn loopback(
    port: UsbInterface,
    endpoint: u8,
    bytes_read: usize,
    buffer: &[u8; EP_MAX_RECEIVE_LENGTH],
) -> (writes: Vec<(UsbInterface, DriverAction)>)
    ensures
        endpoint == 0 ==> writes@.len() == 0,
        endpoint != 0 ==> {
            let data = spec_take_at_most(buffer@, bytes_read);
            &&& writes@.len() == 2
            &&& writes@[0].0 == spec_other_ports(port).0
            &&& writes@[1].0 == spec_other_ports(port).1
            &&& writes@[0].1@ == ActionView::Write(endpoint, data)
            &&& writes@[1].1@ == ActionView::Write(endpoint, data)
        },
{
    let mut writes: Vec<(UsbInterface, DriverAction)> = Vec::new();
    if endpoint == 0 {
        return writes;
    }
    let (first, second) = match port {
        UsbInterface::Target => (UsbInterface::Aux, UsbInterface::Control),
        UsbInterface::Aux => (UsbInterface::Target, UsbInterface::Control),
        UsbInterface::Control => (UsbInterface::Target, UsbInterface::Aux),
    };
    proof {
        assert(buffer@.take(buffer@.len() as int) =~= buffer@);
    }
    writes.push((first, DriverAction::Write(endpoint, take_bytes(buffer.as_slice(), bytes_read))));
    writes.push((second, DriverAction::Write(endpoint, take_bytes(buffer.as_slice(), bytes_read))));
    writes
}

} // verus!
