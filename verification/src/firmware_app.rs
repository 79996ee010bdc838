//! The firmware application: answers Great Communications Protocol
//! commands that arrive as vendor requests on the host port, `usb1`, and
//! hands the target port's events to the greatdancer class.
//!
//! The functions here decide; they return the driver actions the host port
//! is to perform, and leave the target port's requests queued in the
//! greatdancer class.

use vstd::prelude::*;
use vstd::slice::slice_subrange;

use crate::class::firmware;
use crate::class::greatdancer::{
    spec_dispatch, spec_dispatch_panics, spec_raise_status, spec_receive_data, spec_with_state,
    Greatdancer, GreatdancerView, StateView, EP_MAX_RECEIVE_LENGTH, NUM_ENDPOINTS, USBSTS_D_UI,
};
use crate::error::{view_result, GreatError, GreatResult};
use crate::firmware::BoardInformation;
use crate::gcp::class_core::{spec_core_dispatch, Core};
use crate::gcp::{spec_class_id, spec_prelude, ClassId, Classes, Command};
use crate::smolusb::control::{
    spec_direction, spec_request_type, Direction, RequestType, SetupPacket,
};
use crate::smolusb::device::{actions_view, spec_truncate, ActionView, DriverAction, UsbDevice};
use crate::smolusb::traits::{
    ControlRead, EndpointRead, EndpointWrite, EndpointWriteRef, UsbDriverOperations,
};
use crate::usb::vendor::{
    spec_vendor_request, spec_vendor_request_value, VendorRequest, VendorRequestValue,
};

verus! {

/// What the interrupt handler reports to the main loop. A `u8` port is 0
/// for the target port, `usb0`, and 1 for the host port, `usb1`.
#[derive(Debug)]
pub enum Message {
    /// A USB bus reset on the port.
    UsbBusReset(u8),
    /// A SETUP packet arrived on the port's control endpoint.
    UsbReceiveSetupPacket(u8, SetupPacket),
    /// Data arrived: port, endpoint, bytes read, buffer.
    UsbReceiveData(u8, u8, usize, [u8; EP_MAX_RECEIVE_LENGTH]),
    /// A transfer completed on the port's endpoint.
    UsbTransferComplete(u8, u8),
    /// The interrupt handler failed.
    ErrorMessage(&'static str),
    /// A timer tick.
    TimerEvent(usize),
}

/// The firmware: the host port's device, the response waiting for the host,
/// and the classes.
pub struct Firmware<'a, D> {
    pub usb1: UsbDevice<'a, D>,
    pub active_response: Option<Vec<u8>>,
    pub core: Core<'a>,
    pub greatdancer: Greatdancer,
}

/// The value kept in an optional response.
pub open spec fn response_view(response: Option<Vec<u8>>) -> Option<Seq<u8>> {
    match response {
        Some(v) => Some(v@),
        None => None,
    }
}

/// The bytes the firmware answers a cancelled command sequence with.
pub open spec fn spec_cancel_bytes() -> Seq<u8> {
    seq![0xdeu8, 0xad, 0xde, 0xad]
}

impl<'a, D> Firmware<'a, D> {
    /// The response waiting for the host.
    pub open spec fn response(&self) -> Option<Seq<u8>> {
        response_view(self.active_response)
    }

    /// The actions a command request leads to, and the response left
    /// waiting afterwards.
    pub open spec fn spec_vendor_request(&self, packet: SetupPacket) -> (Seq<ActionView>, Option<Seq<u8>>) {
        let direction = spec_direction(packet.request_type);
        let request = spec_vendor_request(packet.request);
        let value = spec_vendor_request_value(packet.value);
        if request != VendorRequest::UsbCommandRequest {
            (seq![ActionView::StallRequest], self.response())
        } else if direction == Direction::HostToDevice && value == VendorRequestValue::Start {
            // host is starting a new command sequence
            (seq![ActionView::AckStatusStage(packet)], self.response())
        } else if direction == Direction::DeviceToHost && value == VendorRequestValue::Start {
            // host is ready to receive a response
            match self.response() {
                Some(response) => (
                    seq![ActionView::Write(0, spec_truncate(response, packet.length))],
                    None,
                ),
                None => (seq![ActionView::StallRequest], None),
            }
        } else if direction == Direction::DeviceToHost && value == VendorRequestValue::Cancel {
            // host would like to abort the current command sequence
            (seq![ActionView::Write(0, spec_cancel_bytes())], None)
        } else {
            (seq![ActionView::StallRequest], self.response())
        }
    }

    /// The greatdancer class afterwards, and the response, for a command to
    /// the class `class_id`.
    pub open spec fn spec_gcp_dispatch(&self, class_id: ClassId, verb_number: u32, arguments: Seq<u8>) -> (
        GreatdancerView,
        Result<Seq<u8>, GreatError>,
    ) {
        match class_id {
            ClassId::Core => (
                self.greatdancer@,
                spec_core_dispatch(
                    self.core.classes.0@,
                    self.core.board_information,
                    verb_number,
                    arguments,
                ),
            ),
            ClassId::firmware => (self.greatdancer@, firmware::spec_dispatch(verb_number, arguments)),
            ClassId::greatdancer => spec_dispatch(self.greatdancer@, verb_number, arguments),
            _ => (self.greatdancer@, Err(GreatError::Message("class or verb not found"))),
        }
    }

    /// The command in `bytes` makes the greatdancer class panic.
    pub open spec fn command_panics(bytes: Seq<u8>) -> bool {
        let prelude = spec_prelude(bytes);
        &&& bytes.len() >= 8
        &&& spec_class_id(prelude.class) == ClassId::greatdancer
        &&& spec_dispatch_panics(prelude.verb, bytes.skip(8))
    }

    /// For `bytes_read` bytes of command data in `buffer`: the actions, the
    /// response left waiting, and the greatdancer class afterwards. Fewer
    /// than eight bytes are no command and are ignored.
    pub open spec fn spec_control_data(&self, bytes_read: usize, buffer: Seq<u8>) -> (
        Seq<ActionView>,
        Option<Seq<u8>>,
        GreatdancerView,
    ) {
        if bytes_read < 8 {
            (seq![], self.response(), self.greatdancer@)
        } else {
            let bytes = buffer.take(bytes_read as int);
            let prelude = spec_prelude(bytes);
            let (greatdancer, result) = self.spec_gcp_dispatch(
                spec_class_id(prelude.class),
                prelude.verb,
                bytes.skip(8),
            );
            match result {
                Ok(response) => (seq![], Some(response), greatdancer),
                Err(_) => (seq![ActionView::StallRequest], self.response(), greatdancer),
            }
        }
    }
}

impl<'a, D> Firmware<'a, D> where
    D: ControlRead + EndpointRead + EndpointWrite + EndpointWriteRef + UsbDriverOperations,
 {
    pub fn new(
        usb1: UsbDevice<'a, D>,
        classes: Classes<'a>,
        board_information: BoardInformation<'a>,
    ) -> (r: Self)
        ensures
            r.usb1 == usb1,
            r.response() is None,
            r.core.classes == classes,
            r.core.board_information == board_information,
            r.greatdancer@ == crate::class::greatdancer::spec_new(),
    {
        Self {
            usb1,
            active_response: None,
            core: Core::new(classes, board_information),
            greatdancer: Greatdancer::new(),
        }
    }

    /// Usb1: gcp vendor request handler
    pub fn usb1_handle_vendor_request(&mut self, setup_packet: &SetupPacket) -> (actions: Vec<DriverAction>)
        ensures
            (actions_view(actions@), final(self).response()) == old(self).spec_vendor_request(
                *setup_packet,
            ),
            final(self).usb1 == old(self).usb1,
            final(self).core == old(self).core,
            final(self).greatdancer@ == old(self).greatdancer@,
    {
        let direction = setup_packet.direction();
        let request = VendorRequest::from(setup_packet.request);
        let request_value = VendorRequestValue::from(setup_packet.value);
        let mut actions: Vec<DriverAction> = Vec::new();

        if request != VendorRequest::UsbCommandRequest {
            actions.push(DriverAction::StallRequest);
        } else if direction == Direction::HostToDevice && request_value == VendorRequestValue::Start {
            // host is starting a new command sequence
            actions.push(DriverAction::AckStatusStage(*setup_packet));
        } else if direction == Direction::DeviceToHost && request_value == VendorRequestValue::Start {
            // host is ready to receive a response
            match self.active_response.take() {
                Some(response) => {
                    let length = setup_packet.length as usize;
                    let bytes = crate::bytes::take_bytes(response.as_slice(), length);
                    proof {
                        if length >= response@.len() {
                            assert(response@.take(response@.len() as int) =~= response@);
                        }
                    }
                    actions.push(DriverAction::Write(0, bytes));
                },
                None => {
                    actions.push(DriverAction::StallRequest);
                },
            }
        } else if direction == Direction::DeviceToHost && request_value == VendorRequestValue::Cancel {
            // cancel any queued response
            self.active_response = None;
            let cancel: Vec<u8> = vec![0xde, 0xad, 0xde, 0xad];
            assert(cancel@ =~= spec_cancel_bytes());
            actions.push(DriverAction::Write(0, cancel));
        } else {
            actions.push(DriverAction::StallRequest);
        }
        assert(actions_view(actions@) =~= old(self).spec_vendor_request(*setup_packet).0);
        actions
    }

    /// Answers a command for the class `class_id`.
    pub fn dispatch_gcp_command(&mut self, class_id: ClassId, verb_id: u32, arguments: &[u8]) -> (r: GreatResult<Vec<u8>>)
        requires
            !(class_id == ClassId::greatdancer && spec_dispatch_panics(verb_id, arguments@)),
        ensures
            (final(self).greatdancer@, view_result(r)) == old(self).spec_gcp_dispatch(
                class_id,
                verb_id,
                arguments@,
            ),
            final(self).usb1 == old(self).usb1,
            final(self).core == old(self).core,
            final(self).response() == old(self).response(),
    {
        match class_id {
            // class: core
            ClassId::Core => self.core.dispatch(verb_id, arguments),
            // class: firmware
            ClassId::firmware => firmware::dispatch(verb_id, arguments),
            // class: greatdancer
            ClassId::greatdancer => self.greatdancer.dispatch(verb_id, arguments),
            _ => Err(GreatError::Message("class or verb not found")),
        }
    }

    /// Usb1: parses and dispatches the command in the first `bytes_read`
    /// bytes of `buffer`, and keeps its response for the host's next
    /// request.
    pub fn handle_usb1_receive_control_data(
        &mut self,
        bytes_read: usize,
        buffer: [u8; EP_MAX_RECEIVE_LENGTH],
    ) -> (actions: Vec<DriverAction>)
        requires
            bytes_read <= EP_MAX_RECEIVE_LENGTH,
            !Self::command_panics(buffer@.take(bytes_read as int)),
        ensures
            (actions_view(actions@), final(self).response(), final(self).greatdancer@)
                == old(self).spec_control_data(bytes_read, buffer@),
            final(self).usb1 == old(self).usb1,
            final(self).core == old(self).core,
    {
        let mut actions: Vec<DriverAction> = Vec::new();
        if bytes_read < 8 {
            // short read
            assert(actions_view(actions@) =~= seq![]);
            return actions;
        }
        let bytes = slice_subrange(buffer.as_slice(), 0, bytes_read);
        assert(bytes@ =~= buffer@.take(bytes_read as int));
        // parse & dispatch command
        if let Some(command) = Command::parse(bytes) {
            let class_id = command.class();
            let response = self.dispatch_gcp_command(class_id, command.prelude.verb, command.arguments);
            match response {
                Ok(response) => {
                    self.active_response = Some(response);
                },
                Err(_e) => {
                    actions.push(DriverAction::StallRequest);
                },
            }
        }
        assert(actions_view(actions@) =~= old(self).spec_control_data(bytes_read, buffer@).0);
        actions
    }
}

impl<'a, D> Firmware<'a, D> {
    /// For a SETUP packet on the host port: the actions and the response
    /// left waiting. Command requests go to the vendor request handler,
    /// other vendor requests are answered with a single zero byte, and
    /// everything else is a standard request for the device.
    pub open spec fn spec_setup_packet(&self, packet: SetupPacket) -> (Seq<ActionView>, Option<Seq<u8>>) {
        if spec_request_type(packet.request_type) == RequestType::Vendor {
            if spec_vendor_request(packet.request) == VendorRequest::UsbCommandRequest {
                self.spec_vendor_request(packet)
            } else {
                (seq![ActionView::Write(0, seq![0u8])], self.response())
            }
        } else {
            (self.usb1.spec_setup_actions(packet), self.response())
        }
    }

    /// `usb1` is the host port's device after the SETUP packet: vendor
    /// requests leave it as it was, other requests change it as the device
    /// handles them.
    pub open spec fn usb1_after_setup(&self, packet: SetupPacket, usb1: UsbDevice<'a, D>) -> bool {
        if spec_request_type(packet.request_type) == RequestType::Vendor {
            usb1 == self.usb1
        } else {
            &&& usb1.state == self.usb1.spec_setup_state(packet)
            &&& usb1.feature_remote_wakeup == self.usb1.spec_setup_remote_wakeup(packet)
            &&& usb1.reset_count == self.usb1.reset_count
            &&& usb1.hal_driver == self.usb1.hal_driver
            &&& usb1.device_descriptor == self.usb1.device_descriptor
            &&& usb1.configuration_descriptor == self.usb1.configuration_descriptor
            &&& usb1.string_descriptor_zero == self.usb1.string_descriptor_zero
            &&& usb1.string_descriptors == self.usb1.string_descriptors
        }
    }

    /// Handling the event panics: a SETUP packet asks for a descriptor that
    /// cannot be read, data overruns its buffer, an endpoint has no receive
    /// buffer or completion bit, or a command reads from an endpoint that
    /// has no receive buffer.
    pub open spec fn message_panics(&self, message: Message) -> bool {
        match message {
            Message::UsbReceiveSetupPacket(1, packet) => self.usb1.setup_request_panics(packet),
            Message::UsbReceiveData(1, 0, bytes_read, buffer) => {
                ||| bytes_read > EP_MAX_RECEIVE_LENGTH
                ||| Self::command_panics(buffer@.take(bytes_read as int))
            },
            Message::UsbReceiveData(0, endpoint, _, _) => endpoint >= NUM_ENDPOINTS,
            Message::UsbTransferComplete(0, endpoint) => endpoint >= 32,
            _ => false,
        }
    }
}

impl<'a, D> Firmware<'a, D> where
    D: ControlRead + EndpointRead + EndpointWrite + EndpointWriteRef + UsbDriverOperations,
 {
    /// Usb1: a SETUP packet arrived on the host port.
    pub fn handle_usb1_receive_setup_packet(&mut self, setup_packet: SetupPacket) -> (actions: Vec<DriverAction>)
        requires
            !old(self).usb1.setup_request_panics(setup_packet),
        ensures
            (actions_view(actions@), final(self).response()) == old(self).spec_setup_packet(setup_packet),
            old(self).usb1_after_setup(setup_packet, final(self).usb1),
            final(self).core == old(self).core,
            final(self).greatdancer@ == old(self).greatdancer@,
    {
        let request_type = setup_packet.request_type();
        let vendor_request = VendorRequest::from(setup_packet.request);
        if request_type == RequestType::Vendor {
            if vendor_request == VendorRequest::UsbCommandRequest {
                self.usb1_handle_vendor_request(&setup_packet)
            } else {
                // this is from one of the legacy boards which we need to
                // support to get `greatfet info` to finish enumerating
                // through the supported devices.
                //
                // see: host/greatfet/boards/legacy.py
                let mut actions: Vec<DriverAction> = Vec::new();
                let zero: Vec<u8> = vec![0];
                assert(zero@ =~= seq![0u8]);
                actions.push(DriverAction::Write(0, zero));
                assert(actions_view(actions@) =~= seq![ActionView::Write(0, seq![0u8])]);
                actions
            }
        } else {
            self.usb1.setup_request(&setup_packet)
        }
    }

    /// Usb1: data arrived on a host port endpoint other than the control
    /// endpoint; the firmware has no use for it.
    pub fn handle_usb1_receive_data(
        &mut self,
        _endpoint: u8,
        _bytes_read: usize,
        _buffer: [u8; EP_MAX_RECEIVE_LENGTH],
    ) -> (r: GreatResult<()>)
        ensures
            r is Ok,
            *final(self) == *old(self),
    {
        Ok(())
    }

    /// Usb1: a transfer completed on the host port; nothing to do.
    pub fn handle_usb1_transfer_complete(&mut self, _endpoint: u8) -> (r: GreatResult<()>)
        ensures
            r is Ok,
            *final(self) == *old(self),
    {
        Ok(())
    }

    /// Handles one message from the interrupt handler: events on the host
    /// port drive the command protocol, events on the target port go to the
    /// greatdancer class. Returns the actions the host port is to perform.
    pub fn handle_message(&mut self, message: Message) -> (actions: Vec<DriverAction>)
        requires
            !old(self).message_panics(message),
        ensures
            match message {
                Message::UsbReceiveSetupPacket(1, packet) => {
                    &&& (actions_view(actions@), final(self).response()) == old(
                        self,
                    ).spec_setup_packet(packet)
                    &&& old(self).usb1_after_setup(packet, final(self).usb1)
                    &&& final(self).greatdancer@ == old(self).greatdancer@
                },
                Message::UsbReceiveData(1, 0, bytes_read, buffer) => {
                    &&& (actions_view(actions@), final(self).response(), final(self).greatdancer@)
                        == old(self).spec_control_data(bytes_read, buffer@)
                    &&& final(self).usb1 == old(self).usb1
                },
                Message::UsbReceiveSetupPacket(0, packet) => {
                    &&& actions@.len() == 0
                    &&& final(self).greatdancer@ == spec_raise_status(
                        spec_with_state(
                            old(self).greatdancer@,
                            StateView {
                                setup_packet: Some(packet),
                                ..old(self).greatdancer@.state
                            },
                        ),
                        USBSTS_D_UI,
                    )
                    &&& final(self).usb1 == old(self).usb1
                    &&& final(self).response() == old(self).response()
                },
                Message::UsbReceiveData(0, endpoint, bytes_read, buffer) => {
                    &&& actions@.len() == 0
                    &&& final(self).greatdancer@ == spec_receive_data(
                        old(self).greatdancer@,
                        endpoint as int,
                        bytes_read,
                        buffer@,
                    )
                    &&& final(self).usb1 == old(self).usb1
                    &&& final(self).response() == old(self).response()
                },
                Message::UsbTransferComplete(0, endpoint) => {
                    &&& actions@.len() == 0
                    &&& final(self).greatdancer@ == spec_with_state(
                        old(self).greatdancer@,
                        StateView {
                            usb0_endpoint_complete_pending: old(
                                self,
                            ).greatdancer@.state.usb0_endpoint_complete_pending | (1u32
                                << endpoint),
                            ..old(self).greatdancer@.state
                        },
                    )
                    &&& final(self).usb1 == old(self).usb1
                    &&& final(self).response() == old(self).response()
                },
                _ => {
                    &&& actions@.len() == 0
                    &&& final(self).greatdancer@ == old(self).greatdancer@
                    &&& final(self).usb1 == old(self).usb1
                    &&& final(self).response() == old(self).response()
                },
            },
            final(self).core == old(self).core,
    {
        match message {
            // - usb1 message handlers --

            // Usb1 received setup packet
            Message::UsbReceiveSetupPacket(1, packet) => self.handle_usb1_receive_setup_packet(packet),
            // Usb1 transfer complete
            Message::UsbTransferComplete(1, endpoint) => {
                let _ = self.handle_usb1_transfer_complete(endpoint);
                Vec::new()
            },
            // Usb1 received data on control endpoint
            Message::UsbReceiveData(1, 0, bytes_read, buffer) => {
                self.handle_usb1_receive_control_data(bytes_read, buffer)
            },
            // Usb1 received data on endpoint
            Message::UsbReceiveData(1, endpoint, bytes_read, buffer) => {
                let _ = self.handle_usb1_receive_data(endpoint, bytes_read, buffer);
                Vec::new()
            },

            // - usb0 message handlers --

            // Usb0 received setup packet
            Message::UsbReceiveSetupPacket(0, packet) => {
                let _ = self.greatdancer.handle_usb_receive_setup_packet(packet);
                Vec::new()
            },
            // Usb0 transfer complete
            Message::UsbTransferComplete(0, endpoint) => {
                let _ = self.greatdancer.handle_usb_transfer_complete(endpoint);
                Vec::new()
            },
            // Usb0 received data on control endpoint
            Message::UsbReceiveData(0, 0, bytes_read, buffer) => {
                let _ = self.greatdancer.handle_usb_receive_control_data(bytes_read, buffer);
                Vec::new()
            },
            // Usb0 received data on endpoint
            Message::UsbReceiveData(0, endpoint, bytes_read, buffer) => {
                let _ = self.greatdancer.handle_usb_receive_data(endpoint, bytes_read, buffer);
                Vec::new()
            },

            // Error messages, timer events and anything else are not
            // handled here.
            _ => Vec::new(),
        }
    }
}

// - laws ---------------------------------------------------------------------

/// A SETUP packet that asks for the response to a command: a vendor
/// command request from device to host with the start value.
pub open spec fn is_response_request(packet: SetupPacket) -> bool {
    &&& spec_request_type(packet.request_type) == RequestType::Vendor
    &&& spec_vendor_request(packet.request) == VendorRequest::UsbCommandRequest
    &&& spec_direction(packet.request_type) == Direction::DeviceToHost
    &&& spec_vendor_request_value(packet.value) == VendorRequestValue::Start
}

/// A SETUP packet that cancels the command sequence.
pub open spec fn is_cancel_request(packet: SetupPacket) -> bool {
    &&& spec_request_type(packet.request_type) == RequestType::Vendor
    &&& spec_vendor_request(packet.request) == VendorRequest::UsbCommandRequest
    &&& spec_direction(packet.request_type) == Direction::DeviceToHost
    &&& spec_vendor_request_value(packet.value) == VendorRequestValue::Cancel
}

/// What the host reads back for a command: the next response request is
/// answered with the command's response, cut to the length the host asked
/// for, and leaves no response waiting. A command that fails is stalled
/// and leaves the waiting response as it was.
pub proof fn lemma_command_response_reaches_host<'a, D>(
    before: Firmware<'a, D>,
    after: Firmware<'a, D>,
    bytes_read: usize,
    buffer: Seq<u8>,
    packet: SetupPacket,
)
    requires
        8 <= bytes_read <= buffer.len(),
        after.response() == before.spec_control_data(bytes_read, buffer).1,
        is_response_request(packet),
    ensures
        ({
            let bytes = buffer.take(bytes_read as int);
            let prelude = spec_prelude(bytes);
            let result = before.spec_gcp_dispatch(
                spec_class_id(prelude.class),
                prelude.verb,
                bytes.skip(8),
            ).1;
            &&& result matches Ok(response) ==> after.spec_setup_packet(packet) == (
                seq![ActionView::Write(0, spec_truncate(response, packet.length))],
                None::<Seq<u8>>,
            )
            &&& result is Err ==> before.spec_control_data(bytes_read, buffer).0 == seq![
                ActionView::StallRequest,
            ]
            &&& result is Err ==> after.response() == before.response()
        }),
{
}

/// A response is delivered once: after the host has read it, the next
/// response request is stalled.
pub proof fn lemma_response_delivered_once<'a, D>(
    before: Firmware<'a, D>,
    after: Firmware<'a, D>,
    first: SetupPacket,
    second: SetupPacket,
)
    requires
        is_response_request(first),
        is_response_request(second),
        after.response() == before.spec_setup_packet(first).1,
    ensures
        after.spec_setup_packet(second) == (seq![ActionView::StallRequest], None::<Seq<u8>>),
{
}

/// Cancelling the command sequence discards the waiting response: the
/// host is answered `de ad de ad`, and its next response request is
/// stalled.
pub proof fn lemma_cancel_discards_response<'a, D>(
    before: Firmware<'a, D>,
    after: Firmware<'a, D>,
    cancel: SetupPacket,
    read: SetupPacket,
)
    requires
        is_cancel_request(cancel),
        is_response_request(read),
        after.response() == before.spec_setup_packet(cancel).1,
    ensures
        before.spec_setup_packet(cancel).0 == seq![ActionView::Write(0, spec_cancel_bytes())],
        after.spec_setup_packet(read) == (seq![ActionView::StallRequest], None::<Seq<u8>>),
{
}

/// The host never reads more than it asked for: a response request is
/// answered with at most `length` bytes.
pub proof fn lemma_response_within_requested_length<'a, D>(f: Firmware<'a, D>, packet: SetupPacket)
    requires
        is_response_request(packet),
    ensures
        forall|i: int|
            0 <= i < f.spec_setup_packet(packet).0.len() ==> (#[trigger] f.spec_setup_packet(
                packet,
            ).0[i] matches ActionView::Write(_, bytes) ==> bytes.len() <= packet.length),
{
}

} // verus!
