//! The greatdancer class: relays a USB target port, `usb0`, to a host that
//! drives it over the Great Communications Protocol.

use vstd::prelude::*;

use vstd::slice::slice_subrange;

use crate::bytes::{copy_bytes, le16, take_bytes, u16_from_le, u32_le, u32_to_le_vec};
use crate::error::{view_result, GreatError, GreatResult};
use crate::gcp::{Class, ClassId, Verb};
use crate::smolusb::control::{Direction, SetupPacket};

verus! {

pub const CLASS_DOCS: &'static str = "Common API for updating firmware on a libgreat device.\0";

/// The verbs of the greatdancer class.
///
/// Fields are `"\0"`  where the C implementation has `""`,
/// and `"*\0"` where it has `NULL`.
pub open spec fn spec_verbs() -> Seq<Verb<'static>> {
    seq![
        Verb {
            id: 0x0,
            name: "connect\0",
            doc: "Setup the target port to connect to a host.\nEnables the target port's USB pull-ups.\0",
            in_signature: "<HH\0",
            in_param_names: "ep0_max_packet_size, quirk_flags\0",
            out_signature: "\0",
            out_param_names: "*\0",
        },
        Verb {
            id: 0x1,
            name: "disconnect\0",
            doc: "Disconnect the target port from the host.\0",
            in_signature: "\0",
            in_param_names: "*\0",
            out_signature: "\0",
            out_param_names: "*\0",
        },
        Verb {
            id: 0x2,
            name: "bus_reset\0",
            doc: "Cause the target device to handle a bus reset.\0",
            in_signature: "\0",
            in_param_names: "*\0",
            out_signature: "\0",
            out_param_names: "*\0",
        },
        Verb {
            id: 0x3,
            name: "set_address\0",
            doc: "Set the address of the target device.\nIf deferred is set this action won't complete until the setup phase ends.\0",
            in_signature: "<BB\0",
            in_param_names: "address, deferred\0",
            out_signature: "\0",
            out_param_names: "*\0",
        },
        Verb {
            id: 0x4,
            name: "set_up_endpoints\0",
            doc: "Set up all of the non-control endpoints for the device.\0",
            in_signature: "<*(BHB)\0",
            in_param_names: "endpoint_descriptors\0",
            out_signature: "\0",
            out_param_names: "*\0",
        },
        Verb {
            id: 0x5,
            name: "get_status\0",
            doc: "Read one of the device's USB status registers.\0",
            in_signature: "<B\0",
            in_param_names: "register_type\0",
            out_signature: "<I\0",
            out_param_names: "register_value\0",
        },
        Verb {
            id: 0x6,
            name: "read_setup\0",
            doc: "Read any pending setup packets recieved on the given endpoint.\0",
            in_signature: "<B\0",
            in_param_names: "endpoint_number\0",
            out_signature: "<8X\0",
            out_param_names: "raw_setup_packet\0",
        },
        Verb {
            id: 0x7,
            name: "stall_endpoint\0",
            doc: "Stall the endpoint with the provided address.\0",
            in_signature: "<B\0",
            in_param_names: "endpoint_address\0",
            out_signature: "\0",
            out_param_names: "*\0",
        },
        Verb {
            id: 0x8,
            name: "send_on_endpoint\0",
            doc: "Send the provided data on the given IN endpoint.\0",
            in_signature: "<B*X\0",
            in_param_names: "endpoint_number, data_to_send\0",
            out_signature: "\0",
            out_param_names: "*\0",
        },
        Verb {
            id: 0x9,
            name: "clean_up_transfer\0",
            doc: "Clean up any complete transfers on the given endpoint.\0",
            in_signature: "<B\0",
            in_param_names: "endpoint_address\0",
            out_signature: "\0",
            out_param_names: "*\0",
        },
        Verb {
            id: 0xa,
            name: "start_nonblocking_read\0",
            doc: "Begin listening for data on the given OUT endpoint.\0",
            in_signature: "<B\0",
            in_param_names: "endpoint_number\0",
            out_signature: "\0",
            out_param_names: "*\0",
        },
        Verb {
            id: 0xb,
            name: "finish_nonblocking_read\0",
            doc: "Return the data read after a given non-blocking read.\0",
            in_signature: "<B\0",
            in_param_names: "endpoint_number\0",
            out_signature: "<*X\0",
            out_param_names: "read_data\0",
        },
        Verb {
            id: 0xc,
            name: "get_nonblocking_data_length\0",
            doc: "Return the amount of data read after a given non-blocking read.\0",
            in_signature: "<B\0",
            in_param_names: "endpoint_number\0",
            out_signature: "<I\0",
            out_param_names: "length\0",
        },
    ]
}

/// The verbs of the greatdancer class.
pub fn verbs() -> (r: [Verb<'static>; 13])
    ensures
        r@ == spec_verbs(),
{
    let r = [
        Verb {
            id: 0x0,
            name: "connect\0",
            doc: "Setup the target port to connect to a host.\nEnables the target port's USB pull-ups.\0",
            in_signature: "<HH\0",
            in_param_names: "ep0_max_packet_size, quirk_flags\0",
            out_signature: "\0",
            out_param_names: "*\0",
        },
        Verb {
            id: 0x1,
            name: "disconnect\0",
            doc: "Disconnect the target port from the host.\0",
            in_signature: "\0",
            in_param_names: "*\0",
            out_signature: "\0",
            out_param_names: "*\0",
        },
        Verb {
            id: 0x2,
            name: "bus_reset\0",
            doc: "Cause the target device to handle a bus reset.\0",
            in_signature: "\0",
            in_param_names: "*\0",
            out_signature: "\0",
            out_param_names: "*\0",
        },
        Verb {
            id: 0x3,
            name: "set_address\0",
            doc: "Set the address of the target device.\nIf deferred is set this action won't complete until the setup phase ends.\0",
            in_signature: "<BB\0",
            in_param_names: "address, deferred\0",
            out_signature: "\0",
            out_param_names: "*\0",
        },
        Verb {
            id: 0x4,
            name: "set_up_endpoints\0",
            doc: "Set up all of the non-control endpoints for the device.\0",
            in_signature: "<*(BHB)\0",
            in_param_names: "endpoint_descriptors\0",
            out_signature: "\0",
            out_param_names: "*\0",
        },
        Verb {
            id: 0x5,
            name: "get_status\0",
            doc: "Read one of the device's USB status registers.\0",
            in_signature: "<B\0",
            in_param_names: "register_type\0",
            out_signature: "<I\0",
            out_param_names: "register_value\0",
        },
        Verb {
            id: 0x6,
            name: "read_setup\0",
            doc: "Read any pending setup packets recieved on the given endpoint.\0",
            in_signature: "<B\0",
            in_param_names: "endpoint_number\0",
            out_signature: "<8X\0",
            out_param_names: "raw_setup_packet\0",
        },
        Verb {
            id: 0x7,
            name: "stall_endpoint\0",
            doc: "Stall the endpoint with the provided address.\0",
            in_signature: "<B\0",
            in_param_names: "endpoint_address\0",
            out_signature: "\0",
            out_param_names: "*\0",
        },
        Verb {
            id: 0x8,
            name: "send_on_endpoint\0",
            doc: "Send the provided data on the given IN endpoint.\0",
            in_signature: "<B*X\0",
            in_param_names: "endpoint_number, data_to_send\0",
            out_signature: "\0",
            out_param_names: "*\0",
        },
        Verb {
            id: 0x9,
            name: "clean_up_transfer\0",
            doc: "Clean up any complete transfers on the given endpoint.\0",
            in_signature: "<B\0",
            in_param_names: "endpoint_address\0",
            out_signature: "\0",
            out_param_names: "*\0",
        },
        Verb {
            id: 0xa,
            name: "start_nonblocking_read\0",
            doc: "Begin listening for data on the given OUT endpoint.\0",
            in_signature: "<B\0",
            in_param_names: "endpoint_number\0",
            out_signature: "\0",
            out_param_names: "*\0",
        },
        Verb {
            id: 0xb,
            name: "finish_nonblocking_read\0",
            doc: "Return the data read after a given non-blocking read.\0",
            in_signature: "<B\0",
            in_param_names: "endpoint_number\0",
            out_signature: "<*X\0",
            out_param_names: "read_data\0",
        },
        Verb {
            id: 0xc,
            name: "get_nonblocking_data_length\0",
            doc: "Return the amount of data read after a given non-blocking read.\0",
            in_signature: "<B\0",
            in_param_names: "endpoint_number\0",
            out_signature: "<I\0",
            out_param_names: "length\0",
        },
    ];
    assert(r@ =~= spec_verbs());
    r
}

/// The class's entry in the class table, listing `verbs`: the class's own
/// table is `verbs()`.
pub fn class<'a>(verbs: &'a [Verb<'a>]) -> (r: Class<'a>)
    ensures
        r.id == ClassId::greatdancer,
        r.name@ == "greatdancer"@,
        r.docs@ == CLASS_DOCS@,
        r.verbs == verbs,
{
    Class { id: ClassId::greatdancer, name: "greatdancer", docs: CLASS_DOCS, verbs }
}

// - types --------------------------------------------------------------------

/// The largest max packet size an endpoint can be set up with.
pub const MAX_PACKET_BUFFER_LENGTH: usize = 128;

/// The size of the buffer a received packet arrives in.
pub const EP_MAX_RECEIVE_LENGTH: usize = 64;

/// The number of endpoints whose received data is kept.
pub const NUM_ENDPOINTS: usize = 2;

/// Quirk flag: the host sets the device address itself.
pub const QUIRK_SET_ADDRESS_MANUALLY: u16 = 0x0001;

// USB status flags, as in the USBSTS register.

/// UI: USB interrupt
pub const USBSTS_D_UI: u32 = 0x0000_0001;
/// UEI: USB error interrupt
pub const USBSTS_D_UEI: u32 = 0x0000_0002;
/// PCI: Port change detect
pub const USBSTS_D_PCI: u32 = 0x0000_0004;
/// URI: USB reset received
pub const USBSTS_D_URI: u32 = 0x0000_0040;
/// SRRI: SOF received
pub const USBSTS_D_SRI: u32 = 0x0000_0080;
/// SLI: DCSuspend
pub const USBSTS_D_SLI: u32 = 0x0000_0100;
/// NAKI: NAK interrupt bit
pub const USBSTS_D_NAKI: u32 = 0x0001_0000;

/// RegisterType for status requests
#[derive(Debug, PartialEq, Eq, Clone, Copy, Structural)]
pub enum RegisterType {
    UsbStatus,
    EndpointSetupStatus,
    EndpointComplete,
    EndpointStatus,
    EndpointNak,
}

/// The register type numbered `value`.
pub open spec fn spec_register_type(value: u8) -> Result<RegisterType, GreatError> {
    if value == 0 {
        Ok(RegisterType::UsbStatus)
    } else if value == 1 {
        Ok(RegisterType::EndpointSetupStatus)
    } else if value == 2 {
        Ok(RegisterType::EndpointComplete)
    } else if value == 3 {
        Ok(RegisterType::EndpointStatus)
    } else if value == 4 {
        Ok(RegisterType::EndpointNak)
    } else {
        Err(GreatError::InvalidArgument)
    }
}

impl RegisterType {
    pub fn try_from(value: u8) -> (r: GreatResult<RegisterType>)
        ensures
            r == spec_register_type(value),
    {
        match value {
            0 => Ok(RegisterType::UsbStatus),
            1 => Ok(RegisterType::EndpointSetupStatus),
            2 => Ok(RegisterType::EndpointComplete),
            3 => Ok(RegisterType::EndpointStatus),
            4 => Ok(RegisterType::EndpointNak),
            _ => Err(GreatError::InvalidArgument),
        }
    }
}

// - State --------------------------------------------------------------------

/// What the target port has reported and not yet been collected by the
/// host.
pub struct State {
    pub usb0_status_pending: u32,
    pub usb0_endpoint_complete_pending: u32,
    pub setup_packet: Option<SetupPacket>,
    pub receive_buffers: [[u8; EP_MAX_RECEIVE_LENGTH]; NUM_ENDPOINTS],
    pub bytes_read: [usize; NUM_ENDPOINTS],
}

/// The state with each receive buffer as a sequence.
#[verifier::ext_equal]
pub ghost struct StateView {
    pub usb0_status_pending: u32,
    pub usb0_endpoint_complete_pending: u32,
    pub setup_packet: Option<SetupPacket>,
    pub receive_buffers: Seq<Seq<u8>>,
    pub bytes_read: Seq<usize>,
}

impl View for State {
    type V = StateView;

    open spec fn view(&self) -> StateView {
        StateView {
            usb0_status_pending: self.usb0_status_pending,
            usb0_endpoint_complete_pending: self.usb0_endpoint_complete_pending,
            setup_packet: self.setup_packet,
            receive_buffers: self.receive_buffers@.map_values(
                |b: [u8; EP_MAX_RECEIVE_LENGTH]| b@,
            ),
            bytes_read: self.bytes_read@,
        }
    }
}

/// The state of a freshly connected port: nothing pending, nothing received.
pub open spec fn spec_default_state() -> StateView {
    StateView {
        usb0_status_pending: 0,
        usb0_endpoint_complete_pending: 0,
        setup_packet: None,
        receive_buffers: Seq::new(2, |i: int| Seq::new(64, |j: int| 0u8)),
        bytes_read: seq![0usize, 0],
    }
}

impl Default for State {
    fn default() -> (r: Self)
        ensures
            r@ == spec_default_state(),
    {
        let empty_buffer: [u8; EP_MAX_RECEIVE_LENGTH] = [0; EP_MAX_RECEIVE_LENGTH];
        let r = Self {
            usb0_status_pending: 0,
            usb0_endpoint_complete_pending: 0,
            setup_packet: None,
            receive_buffers: [empty_buffer; NUM_ENDPOINTS],
            bytes_read: [0; NUM_ENDPOINTS],
        };
        assert(empty_buffer@ =~= Seq::new(64, |j: int| 0u8));
        assert(r.receive_buffers@[0] == empty_buffer && r.receive_buffers@[1] == empty_buffer);
        assert(r@.receive_buffers =~= spec_default_state().receive_buffers);
        assert(r@.bytes_read =~= spec_default_state().bytes_read);
        r
    }
}

/// The value of a status register, and the state after reading it: reading
/// the USB status or the endpoint completions clears them.
pub open spec fn spec_get(s: StateView, register_type: RegisterType) -> (u32, StateView) {
    match register_type {
        RegisterType::UsbStatus => (
            s.usb0_status_pending,
            StateView { usb0_status_pending: 0, ..s },
        ),
        RegisterType::EndpointSetupStatus => (if s.setup_packet is Some { 1 } else { 0 }, s),
        RegisterType::EndpointComplete => (
            s.usb0_endpoint_complete_pending,
            StateView { usb0_endpoint_complete_pending: 0, ..s },
        ),
        RegisterType::EndpointStatus => (0, s),
        RegisterType::EndpointNak => (0, s),
    }
}

impl State {
    /// Reads a status register.
    pub fn get(&mut self, register_type: RegisterType) -> (r: u32)
        ensures
            (r, final(self)@) == spec_get(old(self)@, register_type),
    {
        match register_type {
            RegisterType::UsbStatus => self.get_usb_status(),
            RegisterType::EndpointSetupStatus => self.get_endpoint_setup_status(),
            RegisterType::EndpointComplete => self.get_endpoint_complete(),
            RegisterType::EndpointStatus => self.get_endpoint_status(),
            RegisterType::EndpointNak => self.get_endpoint_nak(),
        }
    }

    fn get_usb_status(&mut self) -> (r: u32)
        ensures
            (r, final(self)@) == spec_get(old(self)@, RegisterType::UsbStatus),
    {
        let status_pending = self.usb0_status_pending;
        self.usb0_status_pending = 0;
        status_pending
    }

    fn get_endpoint_setup_status(&mut self) -> (r: u32)
        ensures
            (r, final(self)@) == spec_get(old(self)@, RegisterType::EndpointSetupStatus),
    {
        match self.setup_packet.is_some() {
            true => 1,
            false => 0,
        }
    }

    fn get_endpoint_complete(&mut self) -> (r: u32)
        ensures
            (r, final(self)@) == spec_get(old(self)@, RegisterType::EndpointComplete),
    {
        let endpoint_complete = self.usb0_endpoint_complete_pending;
        self.usb0_endpoint_complete_pending = 0;
        endpoint_complete
    }

    // aka usb_endpoint_is_ready - which queries the GreatFET for a
    // bitmap describing the endpoints that are not currently primed,
    // and thus ready to be primed again
    fn get_endpoint_status(&mut self) -> (r: u32)
        ensures
            (r, final(self)@) == spec_get(old(self)@, RegisterType::EndpointStatus),
    {
        0
    }

    fn get_endpoint_nak(&mut self) -> (r: u32)
        ensures
            (r, final(self)@) == spec_get(old(self)@, RegisterType::EndpointNak),
    {
        0
    }
}

// - Greatdancer --------------------------------------------------------------

/// An operation the greatdancer class asks of the target port's hal
/// driver.
#[derive(Debug, PartialEq, Eq)]
pub enum PortRequest {
    /// Connect the port, reporting its speed.
    Connect,
    /// Enable the port's USB interrupts and events.
    EnableInterrupts,
    /// Disconnect the port.
    Disconnect,
    /// Handle a bus reset.
    BusReset,
    /// Send the bytes on the given endpoint with the driver's `write_ref`.
    WriteRef(u8, Vec<u8>),
    /// Acknowledge a transfer on the given endpoint, in the given direction.
    Ack(u8, Direction),
}

/// A port request, with the bytes of a write as a sequence.
pub ghost enum PortRequestView {
    Connect,
    EnableInterrupts,
    Disconnect,
    BusReset,
    WriteRef(u8, Seq<u8>),
    Ack(u8, Direction),
}

impl View for PortRequest {
    type V = PortRequestView;

    open spec fn view(&self) -> PortRequestView {
        match self {
            PortRequest::Connect => PortRequestView::Connect,
            PortRequest::EnableInterrupts => PortRequestView::EnableInterrupts,
            PortRequest::Disconnect => PortRequestView::Disconnect,
            PortRequest::BusReset => PortRequestView::BusReset,
            PortRequest::WriteRef(e, b) => PortRequestView::WriteRef(*e, b@),
            PortRequest::Ack(e, d) => PortRequestView::Ack(*e, *d),
        }
    }
}

/// The views of a list of port requests.
pub open spec fn requests_view(requests: Seq<PortRequest>) -> Seq<PortRequestView> {
    requests.map_values(|r: PortRequest| r@)
}

/// Greatdancer: the state of the target port as the host sees it, and the
/// port requests that have not been carried out yet.
pub struct Greatdancer {
    pub state: State,
    pub ep0_max_packet_size: u16,
    pub quirk_flags: u16,
    pub requests: Vec<PortRequest>,
}

/// The greatdancer class as a value.
#[verifier::ext_equal]
pub ghost struct GreatdancerView {
    pub state: StateView,
    pub ep0_max_packet_size: u16,
    pub quirk_flags: u16,
    pub requests: Seq<PortRequestView>,
}

impl View for Greatdancer {
    type V = GreatdancerView;

    open spec fn view(&self) -> GreatdancerView {
        GreatdancerView {
            state: self.state@,
            ep0_max_packet_size: self.ep0_max_packet_size,
            quirk_flags: self.quirk_flags,
            requests: requests_view(self.requests@),
        }
    }
}

/// `g` with `extra` requests queued after its own.
pub open spec fn spec_request(g: GreatdancerView, extra: Seq<PortRequestView>) -> GreatdancerView {
    GreatdancerView { requests: g.requests + extra, ..g }
}

/// `g` with `state` in place of its state.
pub open spec fn spec_with_state(g: GreatdancerView, state: StateView) -> GreatdancerView {
    GreatdancerView { state, ..g }
}

/// `g` with `flag` raised in the pending USB status.
pub open spec fn spec_raise_status(g: GreatdancerView, flag: u32) -> GreatdancerView {
    spec_with_state(
        g,
        StateView { usb0_status_pending: g.state.usb0_status_pending | flag, ..g.state },
    )
}

/// `g` after `bytes_read` bytes arrived in `buffer` on `endpoint`.
pub open spec fn spec_receive_data(
    g: GreatdancerView,
    endpoint: int,
    bytes_read: usize,
    buffer: Seq<u8>,
) -> GreatdancerView {
    spec_raise_status(
        spec_with_state(
            g,
            StateView {
                bytes_read: g.state.bytes_read.update(endpoint, bytes_read),
                receive_buffers: g.state.receive_buffers.update(endpoint, buffer),
                ..g.state
            },
        ),
        USBSTS_D_UI,
    )
}

/// The greatdancer class before any command.
pub open spec fn spec_new() -> GreatdancerView {
    GreatdancerView {
        state: spec_default_state(),
        ep0_max_packet_size: 0,
        quirk_flags: 0,
        requests: Seq::empty(),
    }
}

// - verb specifications ------------------------------------------------------

/// A verb's effect: the class afterwards, and the response.
pub type VerbOutcome = (GreatdancerView, Result<Seq<u8>, GreatError>);

/// A verb that checks that it got `expected` argument bytes and does
/// nothing else.
pub open spec fn spec_check_length(g: GreatdancerView, arguments: Seq<u8>, expected: nat) -> VerbOutcome {
    if arguments.len() == expected {
        (g, Ok(Seq::empty()))
    } else {
        (g, Err(GreatError::BadMessage))
    }
}

pub open spec fn spec_connect(g: GreatdancerView, arguments: Seq<u8>) -> VerbOutcome {
    if arguments.len() != 4 {
        (g, Err(GreatError::BadMessage))
    } else {
        (
            GreatdancerView {
                state: spec_default_state(),
                ep0_max_packet_size: le16(arguments[0], arguments[1]),
                quirk_flags: le16(arguments[2], arguments[3]),
                requests: g.requests + seq![PortRequestView::Connect, PortRequestView::EnableInterrupts],
            },
            Ok(Seq::empty()),
        )
    }
}

/// `disconnect` and `bus_reset`: forget the port state, and make the
/// request.
pub open spec fn spec_reset_with(g: GreatdancerView, request: PortRequestView) -> VerbOutcome {
    (spec_request(spec_with_state(g, spec_default_state()), seq![request]), Ok(Seq::empty()))
}

/// The `index`th four-byte endpoint triplet (address, little-endian max
/// packet size, transfer type) asks for a packet size the class cannot
/// handle; triplets for the control endpoint are ignored.
pub open spec fn spec_endpoint_rejected(arguments: Seq<u8>, index: int) -> bool {
    &&& arguments[4 * index] % 128 != 0
    &&& le16(arguments[4 * index + 1], arguments[4 * index + 2]) > MAX_PACKET_BUFFER_LENGTH
}

pub open spec fn spec_set_up_endpoints(g: GreatdancerView, arguments: Seq<u8>) -> VerbOutcome {
    if exists|index: int|
        0 <= index && 4 * index + 4 <= arguments.len() && #[trigger] spec_endpoint_rejected(
            arguments,
            index,
        ) {
        (g, Err(GreatError::InvalidArgument))
    } else {
        (g, Ok(Seq::empty()))
    }
}

pub open spec fn spec_get_status(g: GreatdancerView, arguments: Seq<u8>) -> VerbOutcome {
    if arguments.len() != 1 {
        (g, Err(GreatError::BadMessage))
    } else {
        match spec_register_type(arguments[0]) {
            Err(e) => (g, Err(e)),
            Ok(register_type) => {
                let (value, state) = spec_get(g.state, register_type);
                (spec_with_state(g, state), Ok(u32_le(value)))
            },
        }
    }
}

pub open spec fn spec_read_setup(g: GreatdancerView, arguments: Seq<u8>) -> VerbOutcome {
    if arguments.len() != 1 {
        (g, Err(GreatError::BadMessage))
    } else {
        match g.state.setup_packet {
            None => (g, Err(GreatError::NoMessageOfType)),
            Some(packet) => (
                spec_with_state(g, StateView { setup_packet: None, ..g.state }),
                Ok(packet.spec_bytes()),
            ),
        }
    }
}

pub open spec fn spec_send_on_endpoint(g: GreatdancerView, arguments: Seq<u8>) -> VerbOutcome {
    if arguments.len() < 1 {
        (g, Err(GreatError::BadMessage))
    } else {
        (
            spec_request(
                g,
                seq![
                    PortRequestView::WriteRef(arguments[0], arguments.skip(1)),
                    PortRequestView::Ack(arguments[0], Direction::DeviceToHost),
                ],
            ),
            Ok(Seq::empty()),
        )
    }
}

/// The first `min(n, len)` elements of `s`.
pub open spec fn spec_take_at_most(s: Seq<u8>, n: usize) -> Seq<u8> {
    if n < s.len() {
        s.take(n as int)
    } else {
        s
    }
}

pub open spec fn spec_finish_nonblocking_read(g: GreatdancerView, arguments: Seq<u8>) -> VerbOutcome {
    if arguments.len() != 1 {
        (g, Err(GreatError::BadMessage))
    } else {
        let endpoint = arguments[0] as int;
        (
            spec_with_state(
                g,
                StateView { bytes_read: g.state.bytes_read.update(endpoint, 0), ..g.state },
            ),
            Ok(
                spec_take_at_most(
                    g.state.receive_buffers[endpoint],
                    g.state.bytes_read[endpoint],
                ),
            ),
        )
    }
}

/// The number of bytes read on the endpoint a `get_nonblocking_data_length`
/// command names, as a little-endian `u32`; an endpoint without a receive
/// buffer is answered with nothing.
pub open spec fn spec_get_nonblocking_data_length(g: GreatdancerView, arguments: Seq<u8>) -> VerbOutcome {
    if arguments.len() != 1 {
        (g, Err(GreatError::BadMessage))
    } else if arguments[0] >= NUM_ENDPOINTS {
        (g, Ok(Seq::empty()))
    } else {
        (g, Ok(u32_le(g.state.bytes_read[arguments[0] as int] as u32)))
    }
}

/// `finish_nonblocking_read` indexes the receive buffers with the endpoint
/// number its command names, and panics past the last one.
pub open spec fn spec_dispatch_panics(verb_number: u32, arguments: Seq<u8>) -> bool {
    verb_number == 0xb && arguments.len() == 1 && arguments[0] >= NUM_ENDPOINTS
}

/// The effect of verb `verb_number` of the greatdancer class.
pub open spec fn spec_dispatch(g: GreatdancerView, verb_number: u32, arguments: Seq<u8>) -> VerbOutcome {
    if verb_number == 0x0 {
        spec_connect(g, arguments)
    } else if verb_number == 0x1 {
        spec_reset_with(g, PortRequestView::Disconnect)
    } else if verb_number == 0x2 {
        spec_reset_with(g, PortRequestView::BusReset)
    } else if verb_number == 0x3 {
        spec_check_length(g, arguments, 2)
    } else if verb_number == 0x4 {
        spec_set_up_endpoints(g, arguments)
    } else if verb_number == 0x5 {
        spec_get_status(g, arguments)
    } else if verb_number == 0x6 {
        spec_read_setup(g, arguments)
    } else if verb_number == 0x7 {
        spec_check_length(g, arguments, 1)
    } else if verb_number == 0x8 {
        spec_send_on_endpoint(g, arguments)
    } else if verb_number == 0x9 {
        spec_check_length(g, arguments, 1)
    } else if verb_number == 0xa {
        spec_check_length(g, arguments, 1)
    } else if verb_number == 0xb {
        spec_finish_nonblocking_read(g, arguments)
    } else if verb_number == 0xc {
        spec_get_nonblocking_data_length(g, arguments)
    } else {
        (g, Err(GreatError::GcpVerbNotFound(ClassId::greatdancer, verb_number)))
    }
}

impl Greatdancer {
    pub fn new() -> (r: Self)
        ensures
            r@ == spec_new(),
    {
        let r = Self {
            state: State::default(),
            ep0_max_packet_size: 0,
            quirk_flags: 0,
            requests: Vec::new(),
        };
        assert(r@.requests =~= Seq::<PortRequestView>::empty());
        r
    }

    /// Hands out the port requests made so far, in order, and forgets them.
    pub fn take_requests(&mut self) -> (r: Vec<PortRequest>)
        ensures
            requests_view(r@) == old(self)@.requests,
            final(self)@ == spec_request(
                GreatdancerView { requests: Seq::empty(), ..old(self)@ },
                Seq::empty(),
            ),
    {
        let mut r: Vec<PortRequest> = Vec::new();
        std::mem::swap(&mut r, &mut self.requests);
        assert(requests_view(self.requests@) =~= Seq::<PortRequestView>::empty());
        r
    }

    /// Queues a request to the target port.
    fn push_request(&mut self, request: PortRequest)
        ensures
            final(self)@ == spec_request(old(self)@, seq![request@]),
    {
        let ghost before = self.requests@;
        self.requests.push(request);
        assert(requests_view(self.requests@) =~= requests_view(before) + seq![request@]);
    }
}

// - interrupt handlers -------------------------------------------------------

impl Greatdancer {
    pub fn handle_usb_bus_reset(&mut self) -> (r: GreatResult<()>)
        ensures
            r is Ok,
            final(self)@ == spec_raise_status(old(self)@, USBSTS_D_URI),
    {
        self.state.usb0_status_pending = self.state.usb0_status_pending | USBSTS_D_URI;  // URI: USB reset received
        Ok(())
    }

    pub fn handle_usb_receive_setup_packet(&mut self, setup_packet: SetupPacket) -> (r: GreatResult<()>)
        ensures
            r is Ok,
            final(self)@ == spec_raise_status(
                spec_with_state(
                    old(self)@,
                    StateView { setup_packet: Some(setup_packet), ..old(self)@.state },
                ),
                USBSTS_D_UI,
            ),
    {
        self.state.setup_packet = Some(setup_packet);
        self.state.usb0_status_pending = self.state.usb0_status_pending | USBSTS_D_UI;  // UI: USB interrupt
        Ok(())
    }

    pub fn handle_usb_receive_control_data(
        &mut self,
        bytes_read: usize,
        buffer: [u8; EP_MAX_RECEIVE_LENGTH],
    ) -> (r: GreatResult<()>)
        ensures
            r is Ok,
            final(self)@ == spec_receive_data(old(self)@, 0, bytes_read, buffer@),
    {
        self.state.bytes_read[0] = bytes_read;
        self.state.receive_buffers[0] = buffer;
        self.state.usb0_status_pending = self.state.usb0_status_pending | USBSTS_D_UI;  // UI: USB interrupt
        assert(self@.state.receive_buffers =~= old(self)@.state.receive_buffers.update(0, buffer@));
        Ok(())
    }

    pub fn handle_usb_receive_data(
        &mut self,
        endpoint: u8,
        bytes_read: usize,
        buffer: [u8; EP_MAX_RECEIVE_LENGTH],
    ) -> (r: GreatResult<()>)
        requires
            endpoint < NUM_ENDPOINTS,
        ensures
            r is Ok,
            final(self)@ == spec_receive_data(old(self)@, endpoint as int, bytes_read, buffer@),
    {
        let endpoint = endpoint as usize;
        self.state.bytes_read[endpoint] = bytes_read;
        self.state.receive_buffers[endpoint] = buffer;
        self.state.usb0_status_pending = self.state.usb0_status_pending | USBSTS_D_UI;  // UI: USB interrupt
        assert(self@.state.receive_buffers =~= old(self)@.state.receive_buffers.update(
            endpoint as int,
            buffer@,
        ));
        Ok(())
    }

    pub fn handle_usb_transfer_complete(&mut self, endpoint: u8) -> (r: GreatResult<()>)
        requires
            endpoint < 32,
        ensures
            r is Ok,
            final(self)@ == spec_with_state(
                old(self)@,
                StateView {
                    usb0_endpoint_complete_pending: old(self)@.state.usb0_endpoint_complete_pending
                        | (1u32 << endpoint),
                    ..old(self)@.state
                },
            ),
    {
        self.state.usb0_endpoint_complete_pending = self.state.usb0_endpoint_complete_pending | (1u32 << endpoint);
        Ok(())
    }
}

// - verb implementations: connection / disconnection -------------------------

impl Greatdancer {
    /// Connect the USB interface.
    pub fn connect(&mut self, arguments: &[u8]) -> (r: GreatResult<Vec<u8>>)
        ensures
            (final(self)@, view_result(r)) == spec_connect(old(self)@, arguments@),
    {
        if arguments.len() != 4 {
            return Err(GreatError::BadMessage);
        }
        self.ep0_max_packet_size = u16_from_le(arguments[0], arguments[1]);
        self.quirk_flags = u16_from_le(arguments[2], arguments[3]);
        self.state = State::default();
        self.push_request(PortRequest::Connect);
        self.push_request(PortRequest::EnableInterrupts);
        Ok(Vec::new())
    }

    /// Terminate all existing communication and disconnects the USB interface.
    pub fn disconnect(&mut self, _arguments: &[u8]) -> (r: GreatResult<Vec<u8>>)
        ensures
            (final(self)@, view_result(r)) == spec_reset_with(old(self)@, PortRequestView::Disconnect),
    {
        self.state = State::default();
        self.push_request(PortRequest::Disconnect);
        Ok(Vec::new())
    }

    /// Perform a USB bus reset.
    pub fn bus_reset(&mut self, _arguments: &[u8]) -> (r: GreatResult<Vec<u8>>)
        ensures
            (final(self)@, view_result(r)) == spec_reset_with(old(self)@, PortRequestView::BusReset),
    {
        self.state = State::default();
        self.push_request(PortRequest::BusReset);
        Ok(Vec::new())
    }
}

// - verb implementations: enumeration / setup --------------------------------

impl Greatdancer {
    /// Takes the address and whether it is deferred, one byte each.
    pub fn set_address(&self, arguments: &[u8]) -> (r: GreatResult<Vec<u8>>)
        ensures
            (self@, view_result(r)) == spec_check_length(self@, arguments@, 2),
    {
        if arguments.len() != 2 {
            return Err(GreatError::BadMessage);
        }
        Ok(Vec::new())
    }

    /// Takes four-byte endpoint triplets: address, little-endian max packet
    /// size and transfer type; bytes after the last whole triplet are
    /// ignored.
    pub fn set_up_endpoints(&mut self, arguments: &[u8]) -> (r: GreatResult<Vec<u8>>)
        ensures
            (final(self)@, view_result(r)) == spec_set_up_endpoints(old(self)@, arguments@),
    {
        let mut offset: usize = 0;
        // while we have endpoint triplets to handle
        while 4 <= arguments.len() - offset
            invariant
                offset % 4 == 0,
                offset <= arguments@.len(),
                forall|index: int|
                    0 <= index && 4 * index + 4 <= offset ==> !#[trigger] spec_endpoint_rejected(
                        arguments@,
                        index,
                    ),
            decreases arguments@.len() - offset,
        {
            let address = arguments[offset];
            let max_packet_size = u16_from_le(arguments[offset + 1], arguments[offset + 2]);
            let ghost index: int = offset as int / 4;
            assert(4 * index == offset);
            offset = offset + 4;

            // endpoint zero is always the control endpoint, and can't be configured
            assert((address & 0x7f == 0x00) == (address % 128 == 0)) by (bit_vector);
            if address & 0x7f == 0x00 {
                continue;
            }
            // ignore endpoint configurations we won't be able to handle
            if max_packet_size as usize > MAX_PACKET_BUFFER_LENGTH {
                assert(spec_endpoint_rejected(arguments@, index));
                return Err(GreatError::InvalidArgument);
            }
        }
        Ok(Vec::new())
    }
}

// - verb implementations: status & control -----------------------------------

impl Greatdancer {
    /// Query the GreatDancer for any events that need to be processed.
    ///
    /// The index value is used to select which status section we're looking for:
    ///
    /// 0 = pending interrupts (USBSTS register)
    /// 1 = setup status for all endpoints (ENDPTSETUPSTAT)
    /// 2 = endpoint completion status (ENDPTCOMPLETE)
    /// 3 = endpoint primed status (ENDPTSTATUS)
    ///
    /// Always transmits a 4-byte word back to the host.
    pub fn get_status(&mut self, arguments: &[u8]) -> (r: GreatResult<Vec<u8>>)
        ensures
            (final(self)@, view_result(r)) == spec_get_status(old(self)@, arguments@),
    {
        if arguments.len() != 1 {
            return Err(GreatError::BadMessage);
        }
        let register_type = match RegisterType::try_from(arguments[0]) {
            Ok(register_type) => register_type,
            Err(e) => {
                return Err(e);
            },
        };
        let status = self.state.get(register_type);
        Ok(u32_to_le_vec(status))
    }

    /// Read a setup packet from the GreatDancer port and relays it to the host.
    ///
    /// Transmits the 8-byte setup packet back to the host; when none is
    /// waiting, answers `NoMessageOfType`.
    pub fn read_setup(&mut self, arguments: &[u8]) -> (r: GreatResult<Vec<u8>>)
        ensures
            (final(self)@, view_result(r)) == spec_read_setup(old(self)@, arguments@),
    {
        if arguments.len() != 1 {
            return Err(GreatError::BadMessage);
        }
        match self.state.setup_packet.take() {
            Some(setup_packet) => {
                let bytes = setup_packet.as_bytes();
                Ok(copy_bytes(bytes.as_slice()))
            },
            None => Err(GreatError::NoMessageOfType),
        }
    }

    /// Temporarily stalls the given USB endpoint.
    pub fn stall_endpoint(&self, arguments: &[u8]) -> (r: GreatResult<Vec<u8>>)
        ensures
            (self@, view_result(r)) == spec_check_length(self@, arguments@, 1),
    {
        if arguments.len() != 1 {
            return Err(GreatError::BadMessage);
        }
        Ok(Vec::new())
    }
}

// - verb implementations: data transfer --------------------------------------

impl Greatdancer {
    /// Sends the data that follows the endpoint number on that endpoint.
    pub fn send_on_endpoint(&mut self, arguments: &[u8]) -> (r: GreatResult<Vec<u8>>)
        ensures
            (final(self)@, view_result(r)) == spec_send_on_endpoint(old(self)@, arguments@),
    {
        if arguments.len() < 1 {
            return Err(GreatError::BadMessage);
        }
        let endpoint: u8 = arguments[0];
        let data_to_send = copy_bytes(slice_subrange(arguments, 1, arguments.len()));
        assert(data_to_send@ =~= arguments@.skip(1));
        self.push_request(PortRequest::WriteRef(endpoint, data_to_send));
        self.push_request(PortRequest::Ack(endpoint, Direction::DeviceToHost));
        Ok(Vec::new())
    }

    /// Should be called whenever a transfer is complete; cleans up any transfer
    /// descriptors associated with that transfer.
    pub fn clean_up_transfer(&self, arguments: &[u8]) -> (r: GreatResult<Vec<u8>>)
        ensures
            (self@, view_result(r)) == spec_check_length(self@, arguments@, 1),
    {
        if arguments.len() != 1 {
            return Err(GreatError::BadMessage);
        }
        Ok(Vec::new())
    }

    /// Prime the USB controller to recieve data on a particular endpoint.
    pub fn start_nonblocking_read(&self, arguments: &[u8]) -> (r: GreatResult<Vec<u8>>)
        ensures
            (self@, view_result(r)) == spec_check_length(self@, arguments@, 1),
    {
        if arguments.len() != 1 {
            return Err(GreatError::BadMessage);
        }
        Ok(Vec::new())
    }

    /// Finish a non-blocking read by returning the read data back to the host.
    pub fn finish_nonblocking_read(&mut self, arguments: &[u8]) -> (r: GreatResult<Vec<u8>>)
        requires
            !spec_dispatch_panics(0xb, arguments@),
        ensures
            (final(self)@, view_result(r)) == spec_finish_nonblocking_read(old(self)@, arguments@),
    {
        if arguments.len() != 1 {
            return Err(GreatError::BadMessage);
        }
        let endpoint = arguments[0] as usize;
        let data = self.state.receive_buffers[endpoint];
        let bytes_read = self.state.bytes_read[endpoint];
        self.state.bytes_read[endpoint] = 0;
        let r = take_bytes(data.as_slice(), bytes_read);
        assert(old(self)@.state.receive_buffers[endpoint as int] == data@);
        assert(data@.take(data@.len() as int) =~= data@);
        assert(self@.state.bytes_read =~= old(self)@.state.bytes_read.update(endpoint as int, 0));
        Ok(r)
    }

    /// Query an endpoint to determine how much data is available: answers
    /// the number of bytes read on the endpoint as a little-endian `u32`.
    /// Endpoints past the last one with a receive buffer are answered with
    /// nothing.
    pub fn get_nonblocking_data_length(&self, arguments: &[u8]) -> (r: GreatResult<Vec<u8>>)
        ensures
            (self@, view_result(r)) == spec_get_nonblocking_data_length(self@, arguments@),
    {
        if arguments.len() != 1 {
            return Err(GreatError::BadMessage);
        }
        let endpoint = arguments[0] as usize;
        if endpoint >= NUM_ENDPOINTS {
            return Ok(Vec::new());
        }
        let length = self.state.bytes_read[endpoint] as u32;
        Ok(u32_to_le_vec(length))
    }
}

// - dispatch -----------------------------------------------------------------

impl Greatdancer {
    /// Answers verb `verb_number` of the greatdancer class.
    pub fn dispatch(&mut self, verb_number: u32, arguments: &[u8]) -> (r: GreatResult<Vec<u8>>)
        requires
            !spec_dispatch_panics(verb_number, arguments@),
        ensures
            (final(self)@, view_result(r)) == spec_dispatch(old(self)@, verb_number, arguments@),
    {
        match verb_number {
            0x0 => self.connect(arguments),
            0x1 => self.disconnect(arguments),
            0x2 => self.bus_reset(arguments),
            0x3 => self.set_address(arguments),
            0x4 => self.set_up_endpoints(arguments),
            0x5 => self.get_status(arguments),
            0x6 => self.read_setup(arguments),
            0x7 => self.stall_endpoint(arguments),
            0x8 => self.send_on_endpoint(arguments),
            0x9 => self.clean_up_transfer(arguments),
            0xa => self.start_nonblocking_read(arguments),
            0xb => self.finish_nonblocking_read(arguments),
            0xc => self.get_nonblocking_data_length(arguments),
            _ => Err(GreatError::GcpVerbNotFound(ClassId::greatdancer, verb_number)),
        }
    }
}

// - laws ---------------------------------------------------------------------

/// A SETUP packet the target port received is relayed to the host once,
/// byte for byte: `read_setup` answers the packet's eight wire bytes, which
/// decode to the packet again, and a second `read_setup` finds no packet.
pub proof fn lemma_read_setup_relays_packet(g: GreatdancerView, packet: SetupPacket, arguments: Seq<u8>)
    requires
        arguments.len() == 1,
    ensures
        ({
            let received = spec_raise_status(
                spec_with_state(g, StateView { setup_packet: Some(packet), ..g.state }),
                USBSTS_D_UI,
            );
            let (after, response) = spec_read_setup(received, arguments);
            &&& response == Ok::<Seq<u8>, GreatError>(packet.spec_bytes())
            &&& crate::smolusb::control::spec_setup_packet(packet.spec_bytes()) == packet
            &&& spec_read_setup(after, arguments).1 == Err::<Seq<u8>, GreatError>(
                GreatError::NoMessageOfType,
            )
        }),
{
    crate::smolusb::control::lemma_setup_packet_decode_encode(packet);
}

/// A pending status flag is reported by the next read of the USB status
/// register and cleared by it: after a bus reset the status has the URI
/// bit set, and reading it again answers zero.
pub proof fn lemma_bus_reset_reported_once(g: GreatdancerView)
    ensures
        ({
            let arguments = seq![0u8];
            let (after, response) = spec_get_status(spec_raise_status(g, USBSTS_D_URI), arguments);
            let status = g.state.usb0_status_pending | USBSTS_D_URI;
            &&& response == Ok::<Seq<u8>, GreatError>(u32_le(status))
            &&& status & USBSTS_D_URI == USBSTS_D_URI
            &&& spec_get_status(after, arguments).1 == Ok::<Seq<u8>, GreatError>(u32_le(0))
        }),
{
    let pending = g.state.usb0_status_pending;
    assert((pending | 0x40u32) & 0x40u32 == 0x40u32) by (bit_vector);
}

/// A completed transfer is reported by the next read of the endpoint
/// completion register, with the endpoint's bit set, and cleared by it.
pub proof fn lemma_transfer_complete_reported_once(g: GreatdancerView, endpoint: u8)
    requires
        endpoint < 32,
    ensures
        ({
            let arguments = seq![2u8];
            let completed = g.state.usb0_endpoint_complete_pending | (1u32 << endpoint);
            let after_complete = spec_with_state(
                g,
                StateView { usb0_endpoint_complete_pending: completed, ..g.state },
            );
            let (after, response) = spec_get_status(after_complete, arguments);
            &&& response == Ok::<Seq<u8>, GreatError>(u32_le(completed))
            &&& completed & (1u32 << endpoint) != 0
            &&& spec_get_status(after, arguments).1 == Ok::<Seq<u8>, GreatError>(u32_le(0))
        }),
{
    let pending = g.state.usb0_endpoint_complete_pending;
    assert(endpoint < 32 ==> (pending | (1u32 << endpoint)) & (1u32 << endpoint) != 0)
        by (bit_vector);
}

/// Data received on an endpoint is handed to the host once: the next
/// `finish_nonblocking_read` of that endpoint answers the bytes read (as
/// many as the buffer holds), and a second one answers nothing.
pub proof fn lemma_received_data_read_once(
    g: GreatdancerView,
    endpoint: u8,
    bytes_read: usize,
    buffer: Seq<u8>,
)
    requires
        endpoint < NUM_ENDPOINTS,
        g.state.receive_buffers.len() == NUM_ENDPOINTS,
        g.state.bytes_read.len() == NUM_ENDPOINTS,
    ensures
        ({
            let arguments = seq![endpoint];
            let received = spec_receive_data(g, endpoint as int, bytes_read, buffer);
            let (after, response) = spec_finish_nonblocking_read(received, arguments);
            &&& response == Ok::<Seq<u8>, GreatError>(spec_take_at_most(buffer, bytes_read))
            &&& spec_finish_nonblocking_read(after, arguments).1 == Ok::<Seq<u8>, GreatError>(
                Seq::empty(),
            )
        }),
{
    let arguments = seq![endpoint];
    let received = spec_receive_data(g, endpoint as int, bytes_read, buffer);
    let (after, _) = spec_finish_nonblocking_read(received, arguments);
    assert(after.state.bytes_read[endpoint as int] == 0);
    assert(spec_take_at_most(after.state.receive_buffers[endpoint as int], 0) =~= Seq::empty());
}

/// The length `get_nonblocking_data_length` reports for an endpoint is the
/// number of bytes that arrived on it, and the next
/// `finish_nonblocking_read` answers exactly that many bytes.
pub proof fn lemma_data_length_matches_read(
    g: GreatdancerView,
    endpoint: u8,
    bytes_read: usize,
    buffer: Seq<u8>,
)
    requires
        endpoint < NUM_ENDPOINTS,
        bytes_read <= buffer.len(),
        buffer.len() == EP_MAX_RECEIVE_LENGTH,
        g.state.receive_buffers.len() == NUM_ENDPOINTS,
        g.state.bytes_read.len() == NUM_ENDPOINTS,
    ensures
        ({
            let arguments = seq![endpoint];
            let received = spec_receive_data(g, endpoint as int, bytes_read, buffer);
            &&& spec_get_nonblocking_data_length(received, arguments).1 == Ok::<Seq<u8>, GreatError>(
                u32_le(bytes_read as u32),
            )
            &&& bytes_read as u32 == bytes_read
            &&& spec_finish_nonblocking_read(received, arguments).1 matches Ok(data) && data.len()
                == bytes_read
        }),
{
}

/// The verb table selects the behaviour: the command whose verb number is
/// the id of the table's `disconnect` entry disconnects the target port
/// (and forgets everything the port reported), and the id of `bus_reset`
/// resets the bus; every other verb named in the table does what its name
/// says, and no verb of either kind touches the other's port request.
pub proof fn lemma_dispatch_follows_verb_table(g: GreatdancerView, arguments: Seq<u8>)
    ensures
        spec_verbs().len() == 13,
        forall|k: int| 0 <= k < 13 ==> (#[trigger] spec_verbs()[k]).id == k,
        // disconnect
        spec_verbs()[1].name@ == "disconnect\0"@,
        ({
            let (after, response) = spec_dispatch(g, spec_verbs()[1].id, arguments);
            &&& response == Ok::<Seq<u8>, GreatError>(Seq::empty())
            &&& after.requests == g.requests.push(PortRequestView::Disconnect)
            &&& after.state.usb0_status_pending == 0
            &&& after.state.usb0_endpoint_complete_pending == 0
            &&& after.state.setup_packet is None
            &&& after.state.bytes_read == seq![0usize, 0]
            &&& after.ep0_max_packet_size == g.ep0_max_packet_size
            &&& after.quirk_flags == g.quirk_flags
        }),
        // bus_reset
        spec_verbs()[2].name@ == "bus_reset\0"@,
        ({
            let (after, response) = spec_dispatch(g, spec_verbs()[2].id, arguments);
            &&& response == Ok::<Seq<u8>, GreatError>(Seq::empty())
            &&& after.requests == g.requests.push(PortRequestView::BusReset)
            &&& after.state.usb0_status_pending == 0
            &&& after.state.usb0_endpoint_complete_pending == 0
            &&& after.state.setup_packet is None
            &&& after.state.bytes_read == seq![0usize, 0]
            &&& after.ep0_max_packet_size == g.ep0_max_packet_size
            &&& after.quirk_flags == g.quirk_flags
        }),
        // connect
        spec_verbs()[0].name@ == "connect\0"@,
        arguments.len() == 4 ==> ({
            let (after, response) = spec_dispatch(g, spec_verbs()[0].id, arguments);
            &&& response == Ok::<Seq<u8>, GreatError>(Seq::empty())
            &&& after.requests == g.requests + seq![
                PortRequestView::Connect,
                PortRequestView::EnableInterrupts,
            ]
            &&& after.ep0_max_packet_size == arguments[0] + 256 * arguments[1]
            &&& after.quirk_flags == arguments[2] + 256 * arguments[3]
            &&& after.state.usb0_status_pending == 0
            &&& after.state.setup_packet is None
        }),
        // get_status of the USB status register
        spec_verbs()[5].name@ == "get_status\0"@,
        arguments == seq![0u8] ==> ({
            let (after, response) = spec_dispatch(g, spec_verbs()[5].id, arguments);
            &&& response == Ok::<Seq<u8>, GreatError>(u32_le(g.state.usb0_status_pending))
            &&& after.state.usb0_status_pending == 0
            &&& after.requests == g.requests
        }),
        // read_setup
        spec_verbs()[6].name@ == "read_setup\0"@,
        arguments.len() == 1 && g.state.setup_packet is Some ==> ({
            let (after, response) = spec_dispatch(g, spec_verbs()[6].id, arguments);
            &&& response == Ok::<Seq<u8>, GreatError>(g.state.setup_packet->0.spec_bytes())
            &&& after.state.setup_packet is None
            &&& after.requests == g.requests
        }),
        // send_on_endpoint
        spec_verbs()[8].name@ == "send_on_endpoint\0"@,
        arguments.len() >= 1 ==> ({
            let (after, response) = spec_dispatch(g, spec_verbs()[8].id, arguments);
            &&& response == Ok::<Seq<u8>, GreatError>(Seq::empty())
            &&& after.requests == g.requests + seq![
                PortRequestView::WriteRef(arguments[0], arguments.subrange(1, arguments.len() as int)),
                PortRequestView::Ack(arguments[0], Direction::DeviceToHost),
            ]
            &&& after.state == g.state
        }),
        // finish_nonblocking_read
        spec_verbs()[11].name@ == "finish_nonblocking_read\0"@,
        arguments.len() == 1 && arguments[0] < NUM_ENDPOINTS && g.state.bytes_read.len()
            == NUM_ENDPOINTS && g.state.receive_buffers.len() == NUM_ENDPOINTS ==> ({
            let e = arguments[0] as int;
            let n = g.state.bytes_read[e];
            let (after, response) = spec_dispatch(g, spec_verbs()[11].id, arguments);
            &&& response matches Ok(data) && data.len() == (if n < g.state.receive_buffers[e].len() {
                n as int
            } else {
                g.state.receive_buffers[e].len() as int
            }) && (forall|i: int| 0 <= i < data.len() ==> data[i] == g.state.receive_buffers[e][i])
            &&& after.state.bytes_read[e] == 0
            &&& after.requests == g.requests
        }),
        // get_nonblocking_data_length
        spec_verbs()[12].name@ == "get_nonblocking_data_length\0"@,
        arguments.len() == 1 && arguments[0] < NUM_ENDPOINTS ==> ({
            let (after, response) = spec_dispatch(g, spec_verbs()[12].id, arguments);
            &&& response == Ok::<Seq<u8>, GreatError>(
                u32_le(g.state.bytes_read[arguments[0] as int] as u32),
            )
            &&& after == g
        }),
        // verbs past the table
        spec_dispatch(g, 13, arguments) == (g, Err::<Seq<u8>, GreatError>(
            GreatError::GcpVerbNotFound(ClassId::greatdancer, 13),
        )),
{
    let v = spec_verbs();
    assert(v[0].id == 0 && v[1].id == 1 && v[2].id == 2 && v[3].id == 3 && v[4].id == 4);
    assert(v[5].id == 5 && v[6].id == 6 && v[7].id == 7 && v[8].id == 8 && v[9].id == 9);
    assert(v[10].id == 10 && v[11].id == 11 && v[12].id == 12);
    if arguments.len() >= 1 {
        assert(arguments.skip(1) =~= arguments.subrange(1, arguments.len() as int));
    }
}

/// `connect` takes the control endpoint's max packet size and the quirk
/// flags from its little-endian arguments, forgets everything the port
/// reported before, and connects the port with its interrupts enabled.
pub proof fn lemma_connect_starts_afresh(g: GreatdancerView, ep0_max_packet_size: u16, quirk_flags: u16)
    ensures
        ({
            let arguments = crate::bytes::u16_le(ep0_max_packet_size) + crate::bytes::u16_le(
                quirk_flags,
            );
            let (after, response) = spec_connect(g, arguments);
            &&& response == Ok::<Seq<u8>, GreatError>(Seq::empty())
            &&& after.ep0_max_packet_size == ep0_max_packet_size
            &&& after.quirk_flags == quirk_flags
            &&& after.state == spec_default_state()
            &&& after.requests == g.requests + seq![
                PortRequestView::Connect,
                PortRequestView::EnableInterrupts,
            ]
        }),
{
    crate::bytes::lemma_u16_le_roundtrip(ep0_max_packet_size);
    crate::bytes::lemma_u16_le_roundtrip(quirk_flags);
    let arguments = crate::bytes::u16_le(ep0_max_packet_size) + crate::bytes::u16_le(quirk_flags);
    assert(arguments[0] == crate::bytes::u16_le(ep0_max_packet_size)[0]);
    assert(arguments[1] == crate::bytes::u16_le(ep0_max_packet_size)[1]);
    assert(arguments[2] == crate::bytes::u16_le(quirk_flags)[0]);
    assert(arguments[3] == crate::bytes::u16_le(quirk_flags)[1]);
}

} // verus!
