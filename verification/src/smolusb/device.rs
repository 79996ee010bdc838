//! `smolusb` device implementation: the control portion of the USB
//! specification, on top of a hal driver.

use vstd::prelude::*;

use crate::error::GreatResult;
use crate::smolusb::control::{
    spec_feature, spec_recipient, spec_request, spec_request_type, Feature, Recipient, Request,
    RequestType, SetupPacket,
};
use crate::smolusb::descriptor::{
    spec_descriptor_type, spec_tail_bytes, ConfigurationDescriptor, DescriptorType,
    DeviceDescriptor, StringDescriptor, StringDescriptorZero,
};
use crate::smolusb::traits::{
    AsByteSliceIterator, ControlRead, EndpointRead, EndpointWrite, EndpointWriteRef,
    UsbDriverOperations,
};

verus! {

/// USB Speed
///
/// Note: These match the gateware peripheral so the mapping isn't particularly meaningful in other contexts.
#[derive(Debug, Clone, Copy, PartialEq, Eq, Structural)]
pub enum Speed {
    Low,  // 1.5 Mbps
    Full,  //  12 Mbps
    High,  // 480 Mbps
    SuperSpeed,  // 5/10 Gbps (includes SuperSpeed+)
}

/// The speed the gateware reports in the low two bits of `value`.
pub open spec fn spec_speed(value: u8) -> Speed {
    let bits = value % 4;
    if bits == 0 {
        Speed::High
    } else if bits == 1 {
        Speed::Full
    } else if bits == 2 {
        Speed::Low
    } else {
        Speed::SuperSpeed
    }
}

impl Speed {
    pub fn from(value: u8) -> (r: Speed)
        ensures
            r == spec_speed(value),
    {
        assert(value & 0b11 == value % 4) by (bit_vector);
        match value & 0b11 {
            0 => Speed::High,
            1 => Speed::Full,
            2 => Speed::Low,
            _ => Speed::SuperSpeed,
        }
    }
}

/// USB device state
#[derive(Debug, Clone, Copy, PartialEq, Eq, Structural)]
pub enum DeviceState {
    Reset,
    Address,
    Configured,
    Suspend,
}

/// An operation the device asks of its hal driver.
#[derive(Debug, PartialEq, Eq)]
pub enum DriverAction {
    /// Stall the current control request.
    StallRequest,
    /// Acknowledge the status stage of the given request.
    AckStatusStage(SetupPacket),
    /// Set the device address.
    SetAddress(u8),
    /// Send the bytes on the given IN endpoint with the driver's `write`.
    Write(u8, Vec<u8>),
    /// Send the bytes on the given IN endpoint with the driver's
    /// `write_ref`.
    WriteRef(u8, Vec<u8>),
    /// Set or clear the stall state of the given endpoint address.
    StallEndpoint(u8, bool),
}

/// A driver action, with the bytes of a write as a sequence.
pub ghost enum ActionView {
    StallRequest,
    AckStatusStage(SetupPacket),
    SetAddress(u8),
    Write(u8, Seq<u8>),
    WriteRef(u8, Seq<u8>),
    StallEndpoint(u8, bool),
}

impl View for DriverAction {
    type V = ActionView;

    open spec fn view(&self) -> ActionView {
        match self {
            DriverAction::StallRequest => ActionView::StallRequest,
            DriverAction::AckStatusStage(p) => ActionView::AckStatusStage(*p),
            DriverAction::SetAddress(a) => ActionView::SetAddress(*a),
            DriverAction::Write(e, b) => ActionView::Write(*e, b@),
            DriverAction::WriteRef(e, b) => ActionView::WriteRef(*e, b@),
            DriverAction::StallEndpoint(e, s) => ActionView::StallEndpoint(*e, *s),
        }
    }
}

/// The views of a list of driver actions.
pub open spec fn actions_view(actions: Seq<DriverAction>) -> Seq<ActionView> {
    actions.map_values(|a: DriverAction| a@)
}

/// The prefix of `bytes` the host asked for with a request of `length` bytes.
pub open spec fn spec_truncate(bytes: Seq<u8>, length: u16) -> Seq<u8> {
    if (length as int) < bytes.len() {
        bytes.take(length as int)
    } else {
        bytes
    }
}

/// A USB device
///
/// `UsbDevice` implements the control portion of the USB
/// specification and consists of:
///
///     * a hal driver
///     * a device descriptor
///     * a configuration descriptor
///     * a set of string descriptors
///
pub struct UsbDevice<'a, D> {
    pub hal_driver: &'a D,
    pub device_descriptor: &'a DeviceDescriptor,
    pub configuration_descriptor: &'a ConfigurationDescriptor,
    pub string_descriptor_zero: &'a StringDescriptorZero,
    pub string_descriptors: &'a [&'a StringDescriptor<'a>],
    pub state: DeviceState,
    pub reset_count: usize,
    pub feature_remote_wakeup: bool,
}

impl<'a, D> UsbDevice<'a, D> {
    /// The descriptor a GET_DESCRIPTOR request asks for cannot be read:
    /// some bytes of the configuration descriptor when it has no total
    /// length, or the string descriptor one past the last. Handling such a
    /// request panics.
    pub open spec fn get_descriptor_panics(&self, packet: SetupPacket) -> bool {
        let number = packet.value % 256;
        let type_bits = (packet.value / 256) as u8;
        ||| spec_descriptor_type(type_bits) == Ok::<DescriptorType, crate::smolusb::ErrorKind>(
            DescriptorType::Configuration,
        ) && number == 0 && !self.configuration_descriptor.has_total_length() && packet.length > 0
        ||| spec_descriptor_type(type_bits) == Ok::<DescriptorType, crate::smolusb::ErrorKind>(
            DescriptorType::String,
        ) && number != 0 && number - 1 == self.string_descriptors@.len()
    }

    /// Handling the request panics: it asks for a descriptor that cannot
    /// be read.
    pub open spec fn setup_request_panics(&self, packet: SetupPacket) -> bool {
        &&& spec_request_type(packet.request_type) == RequestType::Standard
        &&& spec_request(packet.request) == Ok::<Request, crate::smolusb::ErrorKind>(
            Request::GetDescriptor,
        )
        &&& self.get_descriptor_panics(packet)
    }

    /// The response to a GET_DESCRIPTOR request.
    pub open spec fn spec_get_descriptor(&self, packet: SetupPacket) -> Seq<ActionView> {
        let number = packet.value % 256;
        let type_bits = (packet.value / 256) as u8;
        let length = packet.length;
        match spec_descriptor_type(type_bits) {
            Err(_) => seq![ActionView::StallRequest],
            Ok(DescriptorType::Device) => if number == 0 {
                seq![
                    ActionView::WriteRef(
                        0,
                        spec_truncate(self.device_descriptor.spec_as_bytes(), length),
                    ),
                    ActionView::AckStatusStage(packet),
                ]
            } else {
                seq![ActionView::StallRequest]
            },
            Ok(DescriptorType::Configuration) => if number == 0 {
                self.spec_write_then_ack(
                    spec_truncate(self.configuration_descriptor.spec_bytes(), length),
                    packet,
                )
            } else {
                seq![ActionView::StallRequest]
            },
            Ok(DescriptorType::String) => if number == 0 {
                self.spec_write_then_ack(
                    spec_truncate(
                        self.string_descriptor_zero.spec_head().spec_as_bytes()
                            + spec_tail_bytes(self.string_descriptor_zero.spec_tail()),
                        length,
                    ),
                    packet,
                )
            } else if number - 1 > self.string_descriptors@.len() {
                seq![ActionView::StallRequest]
            } else {
                self.spec_write_then_ack(
                    spec_truncate(self.string_descriptors@[number - 1].spec_bytes(), length),
                    packet,
                )
            },
            Ok(_) => seq![ActionView::StallRequest],
        }
    }

    /// A write on the control endpoint followed by the status stage.
    pub open spec fn spec_write_then_ack(&self, bytes: Seq<u8>, packet: SetupPacket) -> Seq<ActionView> {
        seq![ActionView::Write(0, bytes), ActionView::AckStatusStage(packet)]
    }

    /// The actions and the new control state for a SET_FEATURE
    /// (`set == true`) or CLEAR_FEATURE request.
    pub open spec fn spec_feature_request(&self, packet: SetupPacket, set: bool) -> (
        Seq<ActionView>,
        bool,
    ) {
        let recipient = spec_recipient(packet.request_type);
        match spec_feature(packet.value) {
            Err(_) => (seq![ActionView::StallRequest], self.feature_remote_wakeup),
            Ok(Feature::DeviceRemoteWakeup) => if recipient == Recipient::Device {
                (seq![], set)
            } else {
                (seq![ActionView::StallRequest], self.feature_remote_wakeup)
            },
            Ok(Feature::EndpointHalt) => if recipient == Recipient::Endpoint {
                (
                    seq![ActionView::StallEndpoint((packet.index % 256) as u8, set)],
                    self.feature_remote_wakeup,
                )
            } else {
                (seq![ActionView::StallRequest], self.feature_remote_wakeup)
            },
        }
    }

    /// The driver actions a SETUP packet leads to.
    pub open spec fn spec_setup_actions(&self, packet: SetupPacket) -> Seq<ActionView> {
        if spec_request_type(packet.request_type) != RequestType::Standard {
            seq![ActionView::StallRequest]
        } else {
            match spec_request(packet.request) {
                Err(_) => seq![ActionView::StallRequest],
                Ok(Request::SetAddress) => seq![
                    ActionView::AckStatusStage(packet),
                    ActionView::SetAddress((packet.value % 128) as u8),
                ],
                Ok(Request::GetDescriptor) => self.spec_get_descriptor(packet),
                Ok(Request::SetConfiguration) => if packet.value > 1 {
                    seq![ActionView::AckStatusStage(packet), ActionView::StallRequest]
                } else {
                    seq![ActionView::AckStatusStage(packet)]
                },
                Ok(Request::GetConfiguration) => self.spec_write_then_ack(
                    spec_truncate(seq![1u8], packet.length),
                    packet,
                ),
                Ok(Request::ClearFeature) => self.spec_feature_request(packet, false).0,
                Ok(Request::SetFeature) => self.spec_feature_request(packet, true).0,
                Ok(_) => seq![ActionView::StallRequest],
            }
        }
    }

    /// The device state after a SETUP packet.
    pub open spec fn spec_setup_state(&self, packet: SetupPacket) -> DeviceState {
        if spec_request_type(packet.request_type) != RequestType::Standard {
            self.state
        } else {
            match spec_request(packet.request) {
                Ok(Request::SetAddress) => DeviceState::Address,
                Ok(Request::SetConfiguration) => if packet.value > 1 {
                    self.state
                } else {
                    DeviceState::Configured
                },
                _ => self.state,
            }
        }
    }

    /// The remote wakeup feature after a SETUP packet.
    pub open spec fn spec_setup_remote_wakeup(&self, packet: SetupPacket) -> bool {
        if spec_request_type(packet.request_type) != RequestType::Standard {
            self.feature_remote_wakeup
        } else {
            match spec_request(packet.request) {
                Ok(Request::ClearFeature) => self.spec_feature_request(packet, false).1,
                Ok(Request::SetFeature) => self.spec_feature_request(packet, true).1,
                _ => self.feature_remote_wakeup,
            }
        }
    }
}


impl<'a, D> UsbDevice<'a, D> where
    D: ControlRead + EndpointRead + EndpointWrite + EndpointWriteRef + UsbDriverOperations,
 {
    pub fn new(
        hal_driver: &'a D,
        device_descriptor: &'a DeviceDescriptor,
        configuration_descriptor: &'a ConfigurationDescriptor,
        string_descriptor_zero: &'a StringDescriptorZero,
        string_descriptors: &'a [&'a StringDescriptor<'a>],
    ) -> (r: Self)
        ensures
            r.hal_driver == hal_driver,
            r.device_descriptor == device_descriptor,
            r.configuration_descriptor == configuration_descriptor,
            r.string_descriptor_zero == string_descriptor_zero,
            r.string_descriptors == string_descriptors,
            r.state == DeviceState::Reset,
            r.reset_count == 0,
            r.feature_remote_wakeup == false,
    {
        Self {
            hal_driver,
            device_descriptor,
            configuration_descriptor,
            string_descriptor_zero,
            string_descriptors,
            state: DeviceState::Reset,
            reset_count: 0,
            feature_remote_wakeup: false,
        }
    }

    /// Connects the hal driver and returns the speed it reports.
    pub fn connect(&mut self) -> (r: Speed)
        ensures
            *final(self) == *old(self),
    {
        Speed::from(self.hal_driver.connect())
    }

    /// Resets the hal driver and the device state, and counts the reset.
    pub fn reset(&mut self) -> (r: Speed)
        requires
            old(self).reset_count < usize::MAX,
        ensures
            final(self).state == DeviceState::Reset,
            final(self).reset_count == old(self).reset_count + 1,
            final(self).feature_remote_wakeup == old(self).feature_remote_wakeup,
            final(self).hal_driver == old(self).hal_driver,
            final(self).device_descriptor == old(self).device_descriptor,
            final(self).configuration_descriptor == old(self).configuration_descriptor,
            final(self).string_descriptor_zero == old(self).string_descriptor_zero,
            final(self).string_descriptors == old(self).string_descriptors,
    {
        let speed = Speed::from(self.hal_driver.reset());
        self.reset_count = self.reset_count + 1;
        self.state = DeviceState::Reset;
        speed
    }
}

// Handle SETUP packet
impl<'a, D> UsbDevice<'a, D> where
    D: ControlRead + EndpointRead + EndpointWrite + EndpointWriteRef + UsbDriverOperations,
 {
    /// Handles a SETUP packet: updates the device state and has the hal
    /// driver perform the response.
    pub fn handle_setup_request(&mut self, setup_packet: &SetupPacket) -> (r: GreatResult<()>)
        requires
            !old(self).setup_request_panics(*setup_packet),
        ensures
            r is Ok,
            final(self).state == old(self).spec_setup_state(*setup_packet),
            final(self).feature_remote_wakeup == old(self).spec_setup_remote_wakeup(*setup_packet),
            final(self).reset_count == old(self).reset_count,
            final(self).hal_driver == old(self).hal_driver,
            final(self).device_descriptor == old(self).device_descriptor,
            final(self).configuration_descriptor == old(self).configuration_descriptor,
            final(self).string_descriptor_zero == old(self).string_descriptor_zero,
            final(self).string_descriptors == old(self).string_descriptors,
    {
        let actions = self.setup_request(setup_packet);
        self.perform(&actions);
        Ok(())
    }

    /// The hal driver performs the actions, in order.
    pub fn perform(&self, actions: &Vec<DriverAction>) {
        let mut i: usize = 0;
        while i < actions.len()
            decreases actions@.len() - i,
        {
            match &actions[i] {
                DriverAction::StallRequest => self.hal_driver.stall_request(),
                DriverAction::AckStatusStage(packet) => self.hal_driver.ack_status_stage(packet),
                DriverAction::SetAddress(address) => self.hal_driver.set_address(*address),
                DriverAction::Write(endpoint, bytes) => self.hal_driver.write(
                    *endpoint,
                    bytes.as_slice(),
                ),
                DriverAction::WriteRef(endpoint, bytes) => self.hal_driver.write_ref(
                    *endpoint,
                    bytes.as_slice(),
                ),
                DriverAction::StallEndpoint(endpoint, state) => self.hal_driver.stall_endpoint_address(
                    *endpoint,
                    *state,
                ),
            }
            i = i + 1;
        }
    }

    /// Updates the device state for a SETUP packet and returns the actions
    /// the hal driver is to perform in response.
    pub fn setup_request(&mut self, setup_packet: &SetupPacket) -> (actions: Vec<DriverAction>)
        requires
            !old(self).setup_request_panics(*setup_packet),
        ensures
            actions_view(actions@) == old(self).spec_setup_actions(*setup_packet),
            final(self).state == old(self).spec_setup_state(*setup_packet),
            final(self).feature_remote_wakeup == old(self).spec_setup_remote_wakeup(*setup_packet),
            final(self).reset_count == old(self).reset_count,
            final(self).hal_driver == old(self).hal_driver,
            final(self).device_descriptor == old(self).device_descriptor,
            final(self).configuration_descriptor == old(self).configuration_descriptor,
            final(self).string_descriptor_zero == old(self).string_descriptor_zero,
            final(self).string_descriptors == old(self).string_descriptors,
    {
        // if this isn't a standard request, stall it.
        if setup_packet.request_type() != RequestType::Standard {
            return stall();
        }
        // extract the request
        let request = match setup_packet.request() {
            Ok(request) => request,
            Err(_) => {
                return stall();
            },
        };
        match request {
            Request::SetAddress => self.handle_set_address(setup_packet),
            Request::GetDescriptor => self.handle_get_descriptor(setup_packet),
            Request::SetConfiguration => self.handle_set_configuration(setup_packet),
            Request::GetConfiguration => self.handle_get_configuration(setup_packet),
            Request::ClearFeature => self.handle_clear_feature(setup_packet),
            Request::SetFeature => self.handle_set_feature(setup_packet),
            _ => stall(),
        }
    }

    fn handle_set_address(&mut self, packet: &SetupPacket) -> (actions: Vec<DriverAction>)
        ensures
            actions_view(actions@) == seq![
                ActionView::AckStatusStage(*packet),
                ActionView::SetAddress((packet.value % 128) as u8),
            ],
            final(self).state == DeviceState::Address,
            final(self).feature_remote_wakeup == old(self).feature_remote_wakeup,
            final(self).reset_count == old(self).reset_count,
            final(self).hal_driver == old(self).hal_driver,
            final(self).device_descriptor == old(self).device_descriptor,
            final(self).configuration_descriptor == old(self).configuration_descriptor,
            final(self).string_descriptor_zero == old(self).string_descriptor_zero,
            final(self).string_descriptors == old(self).string_descriptors,
    {
        let mut actions: Vec<DriverAction> = Vec::new();
        actions.push(DriverAction::AckStatusStage(*packet));
        let value = packet.value;
        assert(value & 0x7f == value % 128) by (bit_vector);
        let address: u8 = (value & 0x7f) as u8;
        actions.push(DriverAction::SetAddress(address));
        self.state = DeviceState::Address;
        assert(actions_view(actions@) =~= seq![
            ActionView::AckStatusStage(*packet),
            ActionView::SetAddress((packet.value % 128) as u8),
        ]);
        actions
    }

    fn handle_get_descriptor(&self, packet: &SetupPacket) -> (actions: Vec<DriverAction>)
        requires
            !self.get_descriptor_panics(*packet),
        ensures
            actions_view(actions@) == self.spec_get_descriptor(*packet),
    {
        // extract the descriptor type and number from our SETUP request
        let (descriptor_number, descriptor_type_bits) = crate::bytes::u16_to_le(packet.value);
        let descriptor_type = match DescriptorType::try_from(descriptor_type_bits) {
            Ok(descriptor_type) => descriptor_type,
            Err(_) => {
                return stall();
            },
        };

        // if the host is requesting less than the maximum amount of data,
        // only respond with the amount requested
        let requested_length = packet.length as usize;

        let by_reference = descriptor_type == DescriptorType::Device && descriptor_number == 0;
        let bytes: Vec<u8> = match (descriptor_type, descriptor_number) {
            (DescriptorType::Device, 0) => self.device_descriptor.as_iter(),
            (DescriptorType::Configuration, 0) => if requested_length == 0 {
                // nothing of the descriptor is read
                Vec::new()
            } else {
                self.configuration_descriptor.bytes()
            },
            (DescriptorType::String, 0) => string_zero_bytes(self.string_descriptor_zero),
            (DescriptorType::String, index) => {
                let index: usize = (index - 1) as usize;
                if index > self.string_descriptors.len() {
                    return stall();
                }
                string_bytes(self.string_descriptors[index])
            },
            _ => {
                return stall();
            },
        };
        let response = crate::bytes::take_bytes(bytes.as_slice(), requested_length);
        proof {
            if requested_length >= bytes@.len() {
                assert(bytes@.take(bytes@.len() as int) =~= bytes@);
            }
            if requested_length == 0 {
                assert(response@ =~= Seq::<u8>::empty());
                assert(self.configuration_descriptor.spec_bytes().take(0) =~= Seq::<u8>::empty());
            }
        }
        let mut actions: Vec<DriverAction> = Vec::new();
        if by_reference {
            actions.push(DriverAction::WriteRef(0, response));
        } else {
            actions.push(DriverAction::Write(0, response));
        }
        actions.push(DriverAction::AckStatusStage(*packet));
        assert(actions_view(actions@) =~= self.spec_get_descriptor(*packet));
        actions
    }

    fn handle_set_configuration(&mut self, packet: &SetupPacket) -> (actions: Vec<DriverAction>)
        ensures
            actions_view(actions@) == (if packet.value > 1 {
                seq![ActionView::AckStatusStage(*packet), ActionView::StallRequest]
            } else {
                seq![ActionView::AckStatusStage(*packet)]
            }),
            final(self).state == (if packet.value > 1 {
                old(self).state
            } else {
                DeviceState::Configured
            }),
            final(self).feature_remote_wakeup == old(self).feature_remote_wakeup,
            final(self).reset_count == old(self).reset_count,
            final(self).hal_driver == old(self).hal_driver,
            final(self).device_descriptor == old(self).device_descriptor,
            final(self).configuration_descriptor == old(self).configuration_descriptor,
            final(self).string_descriptor_zero == old(self).string_descriptor_zero,
            final(self).string_descriptors == old(self).string_descriptors,
    {
        let mut actions: Vec<DriverAction> = Vec::new();
        actions.push(DriverAction::AckStatusStage(*packet));
        let configuration = packet.value;
        if configuration > 1 {
            actions.push(DriverAction::StallRequest);
            assert(actions_view(actions@) =~= seq![
                ActionView::AckStatusStage(*packet),
                ActionView::StallRequest,
            ]);
            return actions;
        }
        self.state = DeviceState::Configured;
        assert(actions_view(actions@) =~= seq![ActionView::AckStatusStage(*packet)]);
        actions
    }

    fn handle_get_configuration(&self, packet: &SetupPacket) -> (actions: Vec<DriverAction>)
        ensures
            actions_view(actions@) == self.spec_write_then_ack(
                spec_truncate(seq![1u8], packet.length),
                *packet,
            ),
    {
        let requested_length = packet.length as usize;
        let mut configuration: Vec<u8> = Vec::new();
        configuration.push(1);
        let response = crate::bytes::take_bytes(configuration.as_slice(), requested_length);
        let mut actions: Vec<DriverAction> = Vec::new();
        actions.push(DriverAction::Write(0, response));
        actions.push(DriverAction::AckStatusStage(*packet));
        proof {
            if requested_length >= 1 {
                assert(configuration@.take(1) =~= seq![1u8]);
            }
        }
        assert(actions_view(actions@) =~= self.spec_write_then_ack(
            spec_truncate(seq![1u8], packet.length),
            *packet,
        ));
        actions
    }

    fn handle_clear_feature(&mut self, packet: &SetupPacket) -> (actions: Vec<DriverAction>)
        ensures
            actions_view(actions@) == old(self).spec_feature_request(*packet, false).0,
            final(self).feature_remote_wakeup == old(self).spec_feature_request(*packet, false).1,
            final(self).state == old(self).state,
            final(self).reset_count == old(self).reset_count,
            final(self).hal_driver == old(self).hal_driver,
            final(self).device_descriptor == old(self).device_descriptor,
            final(self).configuration_descriptor == old(self).configuration_descriptor,
            final(self).string_descriptor_zero == old(self).string_descriptor_zero,
            final(self).string_descriptors == old(self).string_descriptors,
    {
        self.handle_feature(packet, false)
    }

    fn handle_set_feature(&mut self, packet: &SetupPacket) -> (actions: Vec<DriverAction>)
        ensures
            actions_view(actions@) == old(self).spec_feature_request(*packet, true).0,
            final(self).feature_remote_wakeup == old(self).spec_feature_request(*packet, true).1,
            final(self).state == old(self).state,
            final(self).reset_count == old(self).reset_count,
            final(self).hal_driver == old(self).hal_driver,
            final(self).device_descriptor == old(self).device_descriptor,
            final(self).configuration_descriptor == old(self).configuration_descriptor,
            final(self).string_descriptor_zero == old(self).string_descriptor_zero,
            final(self).string_descriptors == old(self).string_descriptors,
    {
        self.handle_feature(packet, true)
    }

    /// SET_FEATURE (`set == true`) and CLEAR_FEATURE differ only in the
    /// state they set.
    fn handle_feature(&mut self, packet: &SetupPacket, set: bool) -> (actions: Vec<DriverAction>)
        ensures
            actions_view(actions@) == old(self).spec_feature_request(*packet, set).0,
            final(self).feature_remote_wakeup == old(self).spec_feature_request(*packet, set).1,
            final(self).state == old(self).state,
            final(self).reset_count == old(self).reset_count,
            final(self).hal_driver == old(self).hal_driver,
            final(self).device_descriptor == old(self).device_descriptor,
            final(self).configuration_descriptor == old(self).configuration_descriptor,
            final(self).string_descriptor_zero == old(self).string_descriptor_zero,
            final(self).string_descriptors == old(self).string_descriptors,
    {
        // parse request
        let recipient = packet.recipient();
        let feature = match Feature::try_from(packet.value) {
            Ok(feature) => feature,
            Err(_) => {
                return stall();
            },
        };
        match (recipient, feature) {
            (Recipient::Device, Feature::DeviceRemoteWakeup) => {
                self.feature_remote_wakeup = set;
                let actions: Vec<DriverAction> = Vec::new();
                assert(actions_view(actions@) =~= seq![]);
                actions
            },
            (Recipient::Endpoint, Feature::EndpointHalt) => {
                let endpoint = (packet.index % 256) as u8;
                let mut actions: Vec<DriverAction> = Vec::new();
                actions.push(DriverAction::StallEndpoint(endpoint, set));
                assert(actions_view(actions@) =~= seq![ActionView::StallEndpoint(endpoint, set)]);
                actions
            },
            _ => stall(),
        }
    }
}

/// A single stall of the current control request.
fn stall() -> (actions: Vec<DriverAction>)
    ensures
        actions_view(actions@) == seq![ActionView::StallRequest],
{
    let mut actions: Vec<DriverAction> = Vec::new();
    actions.push(DriverAction::StallRequest);
    assert(actions_view(actions@) =~= seq![ActionView::StallRequest]);
    actions
}

/// The bytes of string descriptor zero.
fn string_zero_bytes(descriptor: &StringDescriptorZero) -> (r: Vec<u8>)
    ensures
        r@ == descriptor.spec_head().spec_as_bytes() + spec_tail_bytes(descriptor.spec_tail()),
{
    let mut iter = descriptor.iter();
    let ghost all = iter.remaining();
    let mut v: Vec<u8> = Vec::new();
    loop
        invariant
            v@ + iter.remaining() == all,
            all == descriptor.spec_head().spec_as_bytes() + spec_tail_bytes(descriptor.spec_tail()),
        decreases iter.remaining().len(),
    {
        match iter.next() {
            Some(b) => {
                v.push(b);
            },
            None => {
                assert(v@ =~= all);
                return v;
            },
        }
    }
}

/// The bytes of a string descriptor.
fn string_bytes(descriptor: &StringDescriptor) -> (r: Vec<u8>)
    ensures
        r@ == descriptor.spec_bytes(),
{
    let mut iter = descriptor.iter();
    let mut v: Vec<u8> = Vec::new();
    loop
        invariant
            iter.wf(),
            iter.spec_descriptor() == descriptor,
            v@ + iter.remaining() == descriptor.spec_bytes(),
        decreases iter.remaining().len(),
    {
        let ghost before = iter.remaining();
        match iter.next() {
            Some(b) => {
                v.push(b);
                assert(v@ + iter.remaining() =~= descriptor.spec_bytes());
            },
            None => {
                assert(v@ =~= descriptor.spec_bytes());
                return v;
            },
        }
    }
}

// Handle interrupts
impl<'a, D> UsbDevice<'a, D> where
    D: ControlRead + EndpointRead + EndpointWrite + EndpointWriteRef + UsbDriverOperations,
 {
    /// Reads the SETUP packet waiting on the control endpoint; any eight
    /// bytes the driver reads decode to a packet.
    pub fn _handle_interrupt_ep_control(hal_driver: &D) -> (r: Result<SetupPacket, crate::smolusb::ErrorKind>)
        ensures
            r is Ok,
    {
        let mut buffer = [0u8; 8];
        hal_driver.read_control(&mut buffer);
        SetupPacket::try_from(buffer)
    }

    /// Reads the data waiting on an OUT endpoint into `buffer`, and returns
    /// how many bytes the driver read.
    pub fn _handle_interrupt_ep_out(&self, hal_driver: &D, endpoint: u8, buffer: &mut [u8]) -> usize {
        hal_driver.read(endpoint, buffer)
    }
}

// - laws ---------------------------------------------------------------------

/// A control response never exceeds the length the host asked for.
pub proof fn lemma_truncate_within_length(bytes: Seq<u8>, length: u16)
    ensures
        spec_truncate(bytes, length).len() <= length,
        spec_truncate(bytes, length) == bytes.take(spec_truncate(bytes, length).len() as int),
{
    if length as int >= bytes.len() {
        assert(bytes.take(bytes.len() as int) =~= bytes);
    }
}

/// The device never sends the host more than it asked for: every write
/// in the answer to a SETUP packet is at most the packet's length long,
/// and is a prefix of the full answer.
pub proof fn lemma_setup_writes_within_length<'a, D>(device: UsbDevice<'a, D>, packet: SetupPacket)
    ensures
        forall|i: int|
            0 <= i < device.spec_setup_actions(packet).len() ==> (
            (#[trigger] device.spec_setup_actions(packet)[i] matches ActionView::Write(
                endpoint,
                bytes,
            ) ==> endpoint == 0 && bytes.len() <= packet.length) && (device.spec_setup_actions(
                packet,
            )[i] matches ActionView::WriteRef(endpoint, bytes) ==> endpoint == 0 && bytes.len()
                <= packet.length)),
{
    let number = packet.value % 256;
    let type_bits = (packet.value / 256) as u8;
    lemma_truncate_within_length(device.device_descriptor.spec_as_bytes(), packet.length);
    lemma_truncate_within_length(device.configuration_descriptor.spec_bytes(), packet.length);
    lemma_truncate_within_length(
        device.string_descriptor_zero.spec_head().spec_as_bytes() + spec_tail_bytes(
            device.string_descriptor_zero.spec_tail(),
        ),
        packet.length,
    );
    if number != 0 && number - 1 < device.string_descriptors@.len() {
        lemma_truncate_within_length(device.string_descriptors@[number - 1].spec_bytes(), packet.length);
    }
    lemma_truncate_within_length(seq![1u8], packet.length);
}

/// Requests that are not standard requests are stalled and leave the
/// device as it was.
pub proof fn lemma_non_standard_request_stalled<'a, D>(device: UsbDevice<'a, D>, packet: SetupPacket)
    requires
        spec_request_type(packet.request_type) != RequestType::Standard,
    ensures
        device.spec_setup_actions(packet) == seq![ActionView::StallRequest],
        device.spec_setup_state(packet) == device.state,
        device.spec_setup_remote_wakeup(packet) == device.feature_remote_wakeup,
{
}

/// SET_FEATURE and CLEAR_FEATURE of the device remote wakeup feature, sent
/// to the device, switch the feature on and off without any data stage;
/// the same request to another recipient is stalled.
pub proof fn lemma_remote_wakeup_feature<'a, D>(device: UsbDevice<'a, D>, packet: SetupPacket)
    requires
        spec_request_type(packet.request_type) == RequestType::Standard,
        packet.value == 1,
        spec_request(packet.request) == Ok::<Request, crate::smolusb::ErrorKind>(
            Request::SetFeature,
        ) || spec_request(packet.request) == Ok::<Request, crate::smolusb::ErrorKind>(
            Request::ClearFeature,
        ),
    ensures
        spec_recipient(packet.request_type) == Recipient::Device ==> {
            &&& device.spec_setup_actions(packet) == Seq::<ActionView>::empty()
            &&& device.spec_setup_remote_wakeup(packet) == (spec_request(packet.request)
                == Ok::<Request, crate::smolusb::ErrorKind>(Request::SetFeature))
        },
        spec_recipient(packet.request_type) != Recipient::Device ==> {
            &&& device.spec_setup_actions(packet) == seq![ActionView::StallRequest]
            &&& device.spec_setup_remote_wakeup(packet) == device.feature_remote_wakeup
        },
        device.spec_setup_state(packet) == device.state,
{
}

/// SET_ADDRESS completes its status stage and then takes the low seven
/// bits of the value as the device address; the device is then in the
/// Address state.
pub proof fn lemma_set_address<'a, D>(device: UsbDevice<'a, D>, packet: SetupPacket)
    requires
        spec_request_type(packet.request_type) == RequestType::Standard,
        spec_request(packet.request) == Ok::<Request, crate::smolusb::ErrorKind>(
            Request::SetAddress,
        ),
    ensures
        device.spec_setup_actions(packet) == seq![
            ActionView::AckStatusStage(packet),
            ActionView::SetAddress((packet.value % 128) as u8),
        ],
        device.spec_setup_state(packet) == DeviceState::Address,
{
}

/// A standard GET_DESCRIPTOR request (request 6) reads the descriptor
/// that the high byte of its value names by type and the low byte by
/// index, cut to the requested length and followed by the status stage:
/// type 3 with index `n` between 1 and the number of string descriptors
/// answers string descriptor `n - 1` (string indices count from one, index
/// 0 being the language table), type 3 with index 0 the language table,
/// type 1 the device descriptor and type 2 the configuration descriptor.
/// None of these requests changes the device state.
pub proof fn lemma_get_descriptor_reads_named_descriptor<'a, D>(
    device: UsbDevice<'a, D>,
    packet: SetupPacket,
)
    requires
        (packet.request_type / 32) % 4 == 0,
        packet.request == 6,
    ensures
        packet.value / 256 == 3 && 1 <= packet.value % 256 <= device.string_descriptors@.len()
            ==> device.spec_setup_actions(packet) == seq![
            ActionView::Write(
                0,
                spec_truncate(
                    device.string_descriptors@[packet.value % 256 - 1].spec_bytes(),
                    packet.length,
                ),
            ),
            ActionView::AckStatusStage(packet),
        ],
        packet.value / 256 == 3 && packet.value % 256 == 0 ==> device.spec_setup_actions(packet)
            == seq![
            ActionView::Write(
                0,
                spec_truncate(
                    device.string_descriptor_zero.spec_head().spec_as_bytes() + spec_tail_bytes(
                        device.string_descriptor_zero.spec_tail(),
                    ),
                    packet.length,
                ),
            ),
            ActionView::AckStatusStage(packet),
        ],
        packet.value == 0x0100 ==> device.spec_setup_actions(packet) == seq![
            ActionView::WriteRef(
                0,
                spec_truncate(device.device_descriptor.spec_as_bytes(), packet.length),
            ),
            ActionView::AckStatusStage(packet),
        ],
        packet.value == 0x0200 ==> device.spec_setup_actions(packet) == seq![
            ActionView::Write(
                0,
                spec_truncate(device.configuration_descriptor.spec_bytes(), packet.length),
            ),
            ActionView::AckStatusStage(packet),
        ],
        device.spec_setup_state(packet) == device.state,
        device.spec_setup_remote_wakeup(packet) == device.feature_remote_wakeup,
{
}

} // verus!
