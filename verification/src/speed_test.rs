//! Bulk speed test: the host starts and stops a test with one-byte
//! commands on a bulk endpoint; while an IN test runs, the device keeps
//! writing test data and records how long the writes take.
//!
//! This module holds the test's decisions and statistics; the timing and
//! the endpoint writes are the caller's.

use vstd::prelude::*;

use crate::smolusb::descriptor::{
    ConfigurationDescriptor, DescriptorType, DeviceDescriptor, DeviceQualifierDescriptor,
    EndpointDescriptor, InterfaceDescriptor, LanguageId, StringDescriptor, StringDescriptorZero,
    StringDescriptorZeroHead,
};

verus! {

/// A test command the host sends.
#[derive(Debug, Clone, Copy, PartialEq, Eq, Structural)]
pub enum TestCommand {
    Stop,
    In,  // 0x23
    Out,  // 0x42
    Error,  // 0xff
}

/// The command a command byte stands for; unknown bytes stop the test.
pub open spec fn spec_test_command(value: u8) -> TestCommand {
    if value == 0x23 {
        TestCommand::In
    } else if value == 0x42 {
        TestCommand::Out
    } else if value == 0xff {
        TestCommand::Error
    } else {
        TestCommand::Stop
    }
}

impl TestCommand {
    pub fn from(value: u8) -> (r: TestCommand)
        ensures
            r == spec_test_command(value),
    {
        match value {
            0x23 => TestCommand::In,
            0x42 => TestCommand::Out,
            0xff => TestCommand::Error,
            _ => TestCommand::Stop,
        }
    }
}

/// Statistics of a running test.
#[derive(Debug, Clone, Copy, PartialEq, Eq, Structural)]
pub struct TestStats {
    pub max_queue_length: usize,
    pub max_write_time: usize,
    pub min_write_time: usize,
    pub max_flush_time: usize,
    pub min_flush_time: usize,
    pub write_count: usize,
    pub reset_count: usize,
}

/// The statistics of a test that has not written anything yet.
pub open spec fn spec_new_stats() -> TestStats {
    TestStats {
        max_queue_length: 0,
        max_write_time: 0,
        min_write_time: usize::MAX,
        max_flush_time: 0,
        min_flush_time: usize::MAX,
        write_count: 0,
        reset_count: 0,
    }
}

/// The larger of two values.
pub open spec fn spec_max(a: usize, b: usize) -> usize {
    if a < b {
        b
    } else {
        a
    }
}

/// The smaller of two values.
pub open spec fn spec_min(a: usize, b: usize) -> usize {
    if b < a {
        b
    } else {
        a
    }
}

/// The statistics after a write that took `t_write`, after waiting
/// `t_flush` for the endpoint, and that had to reset the endpoint's buffer
/// if `did_reset`.
pub open spec fn spec_update_in(s: TestStats, t_write: usize, t_flush: usize, did_reset: bool) -> TestStats {
    TestStats {
        max_write_time: spec_max(s.max_write_time, t_write),
        min_write_time: spec_min(s.min_write_time, t_write),
        max_flush_time: spec_max(s.max_flush_time, t_flush),
        min_flush_time: spec_min(s.min_flush_time, t_flush),
        reset_count: if did_reset {
            (s.reset_count + 1) as usize
        } else {
            s.reset_count
        },
        ..s
    }
}

impl TestStats {
    pub fn new() -> (r: Self)
        ensures
            r == spec_new_stats(),
    {
        Self {
            max_queue_length: 0,
            max_write_time: 0,
            min_write_time: usize::MAX,
            max_flush_time: 0,
            min_flush_time: usize::MAX,
            write_count: 0,
            reset_count: 0,
        }
    }

    pub fn reset(&mut self)
        ensures
            *final(self) == spec_new_stats(),
    {
        *self = Self::new();
    }

    pub fn update_in(&mut self, t_write: usize, t_flush: usize, did_reset: bool)
        requires
            did_reset ==> old(self).reset_count < usize::MAX,
        ensures
            *final(self) == spec_update_in(*old(self), t_write, t_flush, did_reset),
    {
        if t_write > self.max_write_time {
            self.max_write_time = t_write;
        }
        if t_write < self.min_write_time {
            self.min_write_time = t_write;
        }
        if t_flush > self.max_flush_time {
            self.max_flush_time = t_flush;
        }
        if t_flush < self.min_flush_time {
            self.min_flush_time = t_flush;
        }
        if did_reset {
            self.reset_count += 1;
        }
    }
}

/// The size of a block of test data.
pub const TEST_WRITE_SIZE: usize = 512;

/// The block of test data an IN test writes: each byte is its position
/// modulo 256.
pub fn test_data() -> (r: [u8; TEST_WRITE_SIZE])
    ensures
        forall|i: int| 0 <= i < TEST_WRITE_SIZE ==> #[trigger] r@[i] == i % 256,
{
    let mut data = [0u8; TEST_WRITE_SIZE];
    let mut n: usize = 0;
    while n < TEST_WRITE_SIZE
        invariant
            n <= TEST_WRITE_SIZE,
            data@.len() == TEST_WRITE_SIZE,
            forall|i: int| 0 <= i < n ==> #[trigger] data@[i] == i % 256,
        decreases TEST_WRITE_SIZE - n,
    {
        data[n] = (n % 256) as u8;
        n = n + 1;
    }
    data
}

/// A speed test: the command the host gave last, and the statistics of
/// the test it started.
#[derive(Debug, Clone, Copy, PartialEq, Eq, Structural)]
pub struct SpeedTest {
    pub command: TestCommand,
    pub stats: TestStats,
}

/// The test after a command packet of `bytes_read` bytes whose first byte
/// is `value`: a one-byte IN or OUT command starts that test with fresh
/// statistics, any other one-byte command stops the test, and packets of
/// any other length are refused and change nothing.
pub open spec fn spec_command_packet(t: SpeedTest, bytes_read: usize, value: u8) -> SpeedTest {
    if bytes_read != 1 {
        t
    } else {
        match spec_test_command(value) {
            TestCommand::In => SpeedTest { command: TestCommand::In, stats: spec_new_stats() },
            TestCommand::Out => SpeedTest { command: TestCommand::Out, stats: spec_new_stats() },
            _ => SpeedTest { command: TestCommand::Stop, ..t },
        }
    }
}

impl SpeedTest {
    /// No test running.
    pub fn new() -> (r: Self)
        ensures
            r.command == TestCommand::Stop,
            r.stats == spec_new_stats(),
    {
        Self { command: TestCommand::Stop, stats: TestStats::new() }
    }

    /// The host sent a command packet of `bytes_read` bytes starting with
    /// `value`. Returns whether the packet was a valid command.
    pub fn handle_command_packet(&mut self, bytes_read: usize, value: u8) -> (r: bool)
        ensures
            r == (bytes_read == 1),
            *final(self) == spec_command_packet(*old(self), bytes_read, value),
    {
        let command = TestCommand::from(value);
        if bytes_read != 1 {
            return false;
        }
        match command {
            TestCommand::In => {
                self.stats.reset();
                self.command = TestCommand::In;
            },
            TestCommand::Out => {
                self.stats.reset();
                self.command = TestCommand::Out;
            },
            _ => {
                self.command = TestCommand::Stop;
            },
        }
        true
    }

    /// A SETUP packet arrived: any running test stops.
    pub fn handle_setup_packet(&mut self)
        ensures
            *final(self) == (SpeedTest { command: TestCommand::Stop, ..*old(self) }),
    {
        self.command = TestCommand::Stop;
    }

    /// Records a write of the IN test.
    pub fn record_write(&mut self, t_write: usize, t_flush: usize, did_reset: bool)
        requires
            old(self).stats.write_count < usize::MAX,
            did_reset ==> old(self).stats.reset_count < usize::MAX,
        ensures
            final(self).command == old(self).command,
            final(self).stats == spec_update_in(
                TestStats { write_count: (old(self).stats.write_count + 1) as usize, ..old(self).stats },
                t_write,
                t_flush,
                did_reset,
            ),
    {
        self.stats.write_count += 1;
        self.stats.update_in(t_write, t_flush, did_reset);
    }

    /// Records how many messages one pass of the main loop handled.
    pub fn record_queue_length(&mut self, queue_length: usize)
        ensures
            final(self).command == old(self).command,
            final(self).stats == (TestStats {
                max_queue_length: spec_max(old(self).stats.max_queue_length, queue_length),
                ..old(self).stats
            }),
    {
        if queue_length > self.stats.max_queue_length {
            self.stats.max_queue_length = queue_length;
        }
    }
}

/// Recording a write keeps the minimum and maximum times bracketing every
/// time recorded: the new bounds bracket the new times and the old bounds.
pub proof fn lemma_update_in_brackets(s: TestStats, t_write: usize, t_flush: usize, did_reset: bool)
    ensures
        ({
            let u = spec_update_in(s, t_write, t_flush, did_reset);
            &&& u.min_write_time <= t_write <= u.max_write_time
            &&& u.min_flush_time <= t_flush <= u.max_flush_time
            &&& u.min_write_time <= s.min_write_time
            &&& u.max_write_time >= s.max_write_time
            &&& u.min_flush_time <= s.min_flush_time
            &&& u.max_flush_time >= s.max_flush_time
        }),
{
}

/// Starting a test forgets the one before: after a one-byte IN (0x23) or
/// OUT (0x42) command the test runs that command with the statistics of a
/// test that has written nothing (no writes, no resets, no queue, zero
/// maxima and minima at `usize::MAX`), whatever the state it came from, so
/// two tests that receive the same start command end in the same state.
/// A one-byte stop command keeps the statistics of the test it stops, and a
/// packet of any other length changes nothing.
pub proof fn lemma_start_command_forgets_earlier_test(
    t: SpeedTest,
    u: SpeedTest,
    bytes_read: usize,
    value: u8,
)
    ensures
        ({
            let started = spec_command_packet(t, 1, 0x23);
            &&& started.command == TestCommand::In
            &&& started.stats.write_count == 0
            &&& started.stats.reset_count == 0
            &&& started.stats.max_queue_length == 0
            &&& started.stats.max_write_time == 0
            &&& started.stats.min_write_time == usize::MAX
            &&& started.stats.max_flush_time == 0
            &&& started.stats.min_flush_time == usize::MAX
        }),
        ({
            let started = spec_command_packet(t, 1, 0x42);
            &&& started.command == TestCommand::Out
            &&& started.stats.write_count == 0
            &&& started.stats.reset_count == 0
            &&& started.stats.max_queue_length == 0
            &&& started.stats.max_write_time == 0
            &&& started.stats.min_write_time == usize::MAX
            &&& started.stats.max_flush_time == 0
            &&& started.stats.min_flush_time == usize::MAX
        }),
        spec_command_packet(t, 1, 0x23) == spec_command_packet(u, 1, 0x23),
        spec_command_packet(t, 1, 0x42) == spec_command_packet(u, 1, 0x42),
        bytes_read == 1 && value != 0x23 && value != 0x42 ==> spec_command_packet(
            t,
            bytes_read,
            value,
        ) == (SpeedTest { command: TestCommand::Stop, stats: t.stats }),
        bytes_read != 1 ==> spec_command_packet(t, bytes_read, value) == t,
{
}

// - usb descriptors ----------------------------------------------------------

/// The speed test device.
pub fn usb_device_descriptor() -> (r: DeviceDescriptor)
    ensures
        r == (DeviceDescriptor {
            descriptor_version: 0x0200,
            device_class: 0x00,
            device_subclass: 0x00,
            device_protocol: 0x00,
            max_packet_size: 64,
            vendor_id: 0x16d0,
            product_id: 0x0f3b,
            device_version_number: 0x1234,
            manufacturer_string_index: 1,
            product_string_index: 2,
            serial_string_index: 3,
            num_configurations: 1,
            ..DeviceDescriptor::spec_new()
        }),
{
    DeviceDescriptor {
        descriptor_version: 0x0200,
        device_class: 0x00,
        device_subclass: 0x00,
        device_protocol: 0x00,
        max_packet_size: 64,
        vendor_id: 0x16d0,
        product_id: 0x0f3b,
        device_version_number: 0x1234,
        manufacturer_string_index: 1,
        product_string_index: 2,
        serial_string_index: 3,
        num_configurations: 1,
        ..DeviceDescriptor::new()
    }
}

/// The device qualifier: how the device would look at the other speed.
pub fn usb_device_qualifier_descriptor() -> (r: DeviceQualifierDescriptor)
    ensures
        r == (DeviceQualifierDescriptor {
            descriptor_version: 0x0200,
            device_class: 0x00,
            device_subclass: 0x00,
            device_protocol: 0x00,
            max_packet_size: 64,
            num_configurations: 1,
            ..DeviceQualifierDescriptor::spec_new()
        }),
{
    DeviceQualifierDescriptor {
        descriptor_version: 0x0200,
        device_class: 0x00,
        device_subclass: 0x00,
        device_protocol: 0x00,
        max_packet_size: 64,
        num_configurations: 1,
        ..DeviceQualifierDescriptor::new()
    }
}

/// The bus-powered configuration, drawing 100 mA: bulk OUT endpoint 1 for test data, bulk OUT endpoint 2 for commands, bulk IN endpoint 1 for test data.
pub fn usb_configuration_descriptor_0() -> (r: ConfigurationDescriptor)
    ensures
        r.descriptor_type == DescriptorType::Configuration,
        r.configuration_value == 1,
        r.configuration_string_index == 1,
        r.attributes == 0x80,
        r.max_power == 50,
        r.interface_descriptors@.len() == 1,
        r.interface_descriptors@[0].spec_has(
            0,
            0x00,
            0x00,
            0x00,
            2,
            seq![
                EndpointDescriptor::spec_with(0x01, 0x02, 512, 0),
                EndpointDescriptor::spec_with(0x02, 0x02, 8, 0),
                EndpointDescriptor::spec_with(0x81, 0x02, 512, 0),
            ],
        ),
{
    ConfigurationDescriptor {
        _length: 9,
        descriptor_type: DescriptorType::Configuration,
        _total_length: 0,
        _num_interfaces: 0,
        configuration_value: 1,
        configuration_string_index: 1,
        attributes: 0x80,
        max_power: 50,
        interface_descriptors: vec![
            InterfaceDescriptor {
                _length: 9,
                _descriptor_type: 4,
                interface_number: 0,
                alternate_setting: 0,
                _num_endpoints: 0,
                interface_class: 0x00,
                interface_subclass: 0x00,
                interface_protocol: 0x00,
                interface_string_index: 2,
                endpoint_descriptors: vec![
                    EndpointDescriptor {
                        endpoint_address: 0x01,
                        attributes: 0x02,
                        max_packet_size: 512,
                        interval: 0,
                        ..EndpointDescriptor::new()
                    },
                    EndpointDescriptor {
                        endpoint_address: 0x02,
                        attributes: 0x02,
                        max_packet_size: 8,
                        interval: 0,
                        ..EndpointDescriptor::new()
                    },
                    EndpointDescriptor {
                        endpoint_address: 0x81,
                        attributes: 0x02,
                        max_packet_size: 512,
                        interval: 0,
                        ..EndpointDescriptor::new()
                    },
                ],
            },
        ],
    }
}

/// The same configuration at the other speed, with full-speed packet sizes.
pub fn usb_other_speed_configuration_descriptor_0() -> (r: ConfigurationDescriptor)
    ensures
        r.descriptor_type == DescriptorType::OtherSpeedConfiguration,
        r.configuration_value == 1,
        r.configuration_string_index == 1,
        r.attributes == 0x80,
        r.max_power == 50,
        r.interface_descriptors@.len() == 1,
        r.interface_descriptors@[0].spec_has(
            0,
            0x00,
            0x00,
            0x00,
            2,
            seq![
                EndpointDescriptor::spec_with(0x01, 0x02, 64, 0),
                EndpointDescriptor::spec_with(0x02, 0x02, 8, 0),
                EndpointDescriptor::spec_with(0x81, 0x02, 64, 0),
            ],
        ),
{
    ConfigurationDescriptor {
        _length: 9,
        descriptor_type: DescriptorType::OtherSpeedConfiguration,
        _total_length: 0,
        _num_interfaces: 0,
        configuration_value: 1,
        configuration_string_index: 1,
        attributes: 0x80,
        max_power: 50,
        interface_descriptors: vec![
            InterfaceDescriptor {
                _length: 9,
                _descriptor_type: 4,
                interface_number: 0,
                alternate_setting: 0,
                _num_endpoints: 0,
                interface_class: 0x00,
                interface_subclass: 0x00,
                interface_protocol: 0x00,
                interface_string_index: 2,
                endpoint_descriptors: vec![
                    EndpointDescriptor {
                        endpoint_address: 0x01,
                        attributes: 0x02,
                        max_packet_size: 64,
                        interval: 0,
                        ..EndpointDescriptor::new()
                    },
                    EndpointDescriptor {
                        endpoint_address: 0x02,
                        attributes: 0x02,
                        max_packet_size: 8,
                        interval: 0,
                        ..EndpointDescriptor::new()
                    },
                    EndpointDescriptor {
                        endpoint_address: 0x81,
                        attributes: 0x02,
                        max_packet_size: 64,
                        interval: 0,
                        ..EndpointDescriptor::new()
                    },
                ],
            },
        ],
    }
}

/// The string descriptor of the language the device's strings are in:
/// United States English.
pub fn usb_string_descriptor_0() -> (r: StringDescriptorZero)
    ensures
        r.spec_tail() == seq![LanguageId::EnglishUnitedStates],
        r.spec_head() == (StringDescriptorZeroHead { _length: 4, _descriptor_type: 3 }),
{
    let languages = [LanguageId::EnglishUnitedStates];
    StringDescriptorZero::new(languages.as_slice())
}

/// The manufacturer string.
pub fn usb_string_descriptor_1() -> (r: StringDescriptor<'static>)
    ensures
        r.spec_string() == "LUNA"@,
{
    StringDescriptor::new("LUNA")
}

/// The product string.
pub fn usb_string_descriptor_2() -> (r: StringDescriptor<'static>)
    ensures
        r.spec_string() == "IN speed test"@,
{
    StringDescriptor::new("IN speed test")
}

/// The serial number string.
pub fn usb_string_descriptor_3() -> (r: StringDescriptor<'static>)
    ensures
        r.spec_string() == "no serial"@,
{
    StringDescriptor::new("no serial")
}

/// The device's strings, in the order of their indices from 1.
pub fn usb_string_descriptors() -> (r: [StringDescriptor<'static>; 3])
    ensures
        r[0].spec_string() == "LUNA"@,
        r[1].spec_string() == "IN speed test"@,
        r[2].spec_string() == "no serial"@,
{
    [usb_string_descriptor_1(), usb_string_descriptor_2(), usb_string_descriptor_3()]
}

} // verus!
