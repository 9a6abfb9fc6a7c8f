//! Messages from the robot to the driver station: the periodic telemetry
//! packet of the UDP channel and the structured messages of the TCP channel.
//! The tags that travel the other way are in [`ds`].

pub mod ds;

use crate::flags::{avoids, contains_all, contains_none, covers, low_two_bits};
use crate::packet::{
    be_u16, be_u32, has_prefixed_string, lossy_text, prefixed_string, rest, PacketReader,
};
use crate::states::RobotMode;
use vstd::prelude::*;

verus! {

/// Status bit: the robot is emergency stopped.
pub const STATUS_ESTOP: u8 = 0b1000_0000;

/// Status bit: the robot is browning out.
pub const STATUS_BROWNOUT: u8 = 0b0001_0000;

/// Status bit: the robot code is starting.
pub const STATUS_CODE_INITIALIZING: u8 = 0b0000_1000;

/// Status bit: the robot is enabled.
pub const STATUS_ENABLED: u8 = 0b0000_0100;

/// The status bits that have no meaning.
pub const STATUS_RESERVED: u8 = 0b0110_0000;

/// Trace bit: robot code is running.
pub const TRACE_ROBOT_CODE: u8 = 0b0010_0000;

/// Trace bit: the controller is a roboRIO.
pub const TRACE_IS_ROBORIO: u8 = 0b0001_0000;

/// Trace bit: the robot code is in test mode.
pub const TRACE_TEST_MODE: u8 = 0b0000_1000;

/// Trace bit: the robot code is in autonomous mode.
pub const TRACE_AUTO_MODE: u8 = 0b0000_0100;

/// Trace bit: the robot code is in teleoperated mode.
pub const TRACE_TELEOP_CODE: u8 = 0b0000_0010;

/// Trace bit: the robot code is disabled.
pub const TRACE_DISABLED: u8 = 0b0000_0001;

/// The trace bits that have no meaning.
pub const TRACE_RESERVED: u8 = 0b1100_0000;

/// The status byte of a telemetry packet: a set of the status bits. No
/// reserved bit is ever set in it.
#[derive(Copy, Clone, Debug)]
pub struct Status {
    bits: u8,
}

impl View for Status {
    type V = u8;

    /// The byte that holds the set.
    closed spec fn view(&self) -> u8 {
        self.bits
    }
}

impl Status {
    /// What holds of every status byte: no reserved bit is set.
    #[verifier::type_invariant]
    pub open spec fn no_reserved_bit(&self) -> bool {
        avoids(self@, STATUS_RESERVED)
    }

    /// The set that a byte holds, unless a reserved bit is set in it.
    pub fn from_bits(bits: u8) -> (status: Option<Status>)
        ensures
            status is Some <==> avoids(bits, STATUS_RESERVED),
            status is Some ==> status->0@ == bits,
    {
        if contains_none(bits, STATUS_RESERVED) {
            Some(Status { bits })
        } else {
            None
        }
    }

    /// The byte that holds the set.
    pub fn bits(&self) -> (bits: u8)
        ensures
            bits == self@,
            avoids(bits, STATUS_RESERVED),
    {
        proof {
            use_type_invariant(self);
        }
        self.bits
    }

    /// Whether every bit of `mask` is set.
    pub fn contains(&self, mask: u8) -> (all: bool)
        ensures
            all == covers(self@, mask),
    {
        contains_all(self.bits, mask)
    }

    /// The mode that the two mode bits name: 00 teleoperated, 01 test,
    /// 10 autonomous, and none for 11.
    pub fn robot_mode(&self) -> (mode: Option<RobotMode>)
        ensures
            mode == RobotMode::of_code(self@ % 4),
    {
        RobotMode::from(low_two_bits(self.bits))
    }
}

/// The trace byte of a telemetry packet: a set of the trace bits. No
/// reserved bit is ever set in it.
#[derive(Copy, Clone, Debug)]
pub struct Trace {
    bits: u8,
}

impl View for Trace {
    type V = u8;

    /// The byte that holds the set.
    closed spec fn view(&self) -> u8 {
        self.bits
    }
}

impl Trace {
    /// What holds of every trace byte: no reserved bit is set.
    #[verifier::type_invariant]
    pub open spec fn no_reserved_bit(&self) -> bool {
        avoids(self@, TRACE_RESERVED)
    }

    /// The set that a byte holds, unless a reserved bit is set in it.
    pub fn from_bits(bits: u8) -> (trace: Option<Trace>)
        ensures
            trace is Some <==> avoids(bits, TRACE_RESERVED),
            trace is Some ==> trace->0@ == bits,
    {
        if contains_none(bits, TRACE_RESERVED) {
            Some(Trace { bits })
        } else {
            None
        }
    }

    /// The byte that holds the set.
    pub fn bits(&self) -> (bits: u8)
        ensures
            bits == self@,
            avoids(bits, TRACE_RESERVED),
    {
        proof {
            use_type_invariant(self);
        }
        self.bits
    }

    /// Whether every bit of `mask` is set.
    pub fn contains(&self, mask: u8) -> (all: bool)
        ensures
            all == covers(self@, mask),
    {
        contains_all(self.bits, mask)
    }
}

/// The length of the fixed part of a telemetry packet.
pub const TELEMETRY_HEADER_LEN: usize = 8;

/// What a telemetry packet holds.
pub struct RioUdpView {
    pub sequence_num: u16,
    pub comm_version: u8,
    pub status: u8,
    pub trace: u8,
    pub battery_voltage: u16,
    pub request_date: bool,
    pub tags: Seq<u8>,
}

/// The periodic telemetry packet of the robot.
#[derive(Debug)]
pub struct RioUdpPacket {
    /// The number of the packet. Packets may arrive out of order.
    pub sequence_num: u16,
    pub comm_version: u8,
    pub status: Status,
    pub trace: Trace,
    /// The battery voltage in units of 1/256 V: the byte of whole volts is
    /// the high half, the byte of 1/256 V the low half.
    pub battery_voltage: u16,
    /// Whether the robot asks for the wall-clock time.
    pub request_date: bool,
    /// The tags behind the fixed part, not read.
    pub tags: PacketReader,
}

impl View for RioUdpPacket {
    type V = RioUdpView;

    open spec fn view(&self) -> RioUdpView {
        RioUdpView {
            sequence_num: self.sequence_num,
            comm_version: self.comm_version,
            status: self.status@,
            trace: self.trace@,
            battery_voltage: self.battery_voltage,
            request_date: self.request_date,
            tags: self.tags@,
        }
    }
}

/// Reads a telemetry packet: a sequence number, the protocol version, the
/// status and trace bytes, the battery voltage as a byte of volts and a
/// byte of 1/256 V, and the request for the date, which is made by the
/// value 1. What follows is kept as it is. A packet that is shorter than
/// the fixed part, or has a reserved status or trace bit set, is no
/// telemetry packet.
pub open spec fn parse_telemetry(bytes: Seq<u8>) -> Option<RioUdpView> {
    if bytes.len() < TELEMETRY_HEADER_LEN || !avoids(bytes[3], STATUS_RESERVED) || !avoids(
        bytes[4],
        TRACE_RESERVED,
    ) {
        None
    } else {
        Some(
            RioUdpView {
                sequence_num: be_u16(bytes[0], bytes[1]),
                comm_version: bytes[2],
                status: bytes[3],
                trace: bytes[4],
                battery_voltage: (bytes[5] * 0x100 + bytes[6]) as u16,
                request_date: bytes[7] == 1,
                tags: rest(bytes, TELEMETRY_HEADER_LEN as int),
            },
        )
    }
}

impl RioUdpPacket {
    /// Decodes a telemetry packet, if `bytes` is one.
    pub fn from_bytes(bytes: Vec<u8>) -> (packet: Option<RioUdpPacket>)
        ensures
            packet is Some <==> parse_telemetry(bytes@) is Some,
            packet is Some ==> Some(packet->0@) == parse_telemetry(bytes@),
    {
        if bytes.len() < TELEMETRY_HEADER_LEN {
            return None;
        }
        let mut packet = PacketReader::from_vec(bytes);
        let sequence_num = packet.next_u16().unwrap();
        let comm_version = packet.next_u8().unwrap();
        let status_bits = packet.next_u8().unwrap();
        let trace_bits = packet.next_u8().unwrap();
        let battery_voltage = packet.next_u16().unwrap();
        let request_date = packet.next_u8().unwrap() == 0x01;
        assert(packet@ == rest(bytes@, 8));
        let status = match Status::from_bits(status_bits) {
            Some(status) => status,
            None => { return None; },
        };
        let trace = match Trace::from_bits(trace_bits) {
            Some(trace) => trace,
            None => { return None; },
        };
        Some(
            RioUdpPacket {
                sequence_num,
                comm_version,
                status,
                trace,
                battery_voltage,
                request_date,
                tags: packet,
            },
        )
    }
}

/// The kind of device that a version message is about.
#[derive(Copy, Clone, Debug, PartialEq, Eq, Structural)]
pub enum DeviceType {
    Software,
    CANTalon,
    PDP,
    PCM,
}

impl DeviceType {
    /// The code of the device kind on the wire.
    pub open spec fn code(self) -> u8 {
        match self {
            DeviceType::Software => 0,
            DeviceType::CANTalon => 2,
            DeviceType::PDP => 8,
            DeviceType::PCM => 9,
        }
    }

    /// The code of the device kind on the wire.
    pub fn to_u8(&self) -> (code: u8)
        ensures
            code == self.code(),
    {
        match self {
            DeviceType::Software => 0,
            DeviceType::CANTalon => 2,
            DeviceType::PDP => 8,
            DeviceType::PCM => 9,
        }
    }
}

/// The type byte of a radio event message.
pub const RADIO_EVENT: u8 = 0x00;

/// The type byte of a usage report.
pub const USAGE_REPORT: u8 = 0x01;

/// The type byte of a message on faults while disabled.
pub const DISABLE_FAULTS: u8 = 0x04;

/// The type byte of a message on rail faults.
pub const RAIL_FAULTS: u8 = 0x05;

/// The type byte of a version message.
pub const VERSION_INFO: u8 = 0x0a;

/// The type byte of an error message.
pub const ERROR_MESSAGE: u8 = 0x0b;

/// The type byte of a message with standard output.
pub const STANDARD_OUTPUT: u8 = 0x0c;

/// The least length of the body of an error message: the fixed fields and
/// the three lengths of its strings.
pub const ERROR_MESSAGE_MIN_LEN: usize = 16;

/// The length of the fixed fields of a message with standard output.
pub const STANDARD_OUTPUT_MIN_LEN: usize = 6;

/// A message from the robot over the TCP channel. A timestamp is the bit
/// pattern of an IEEE 754 single.
#[derive(Debug, PartialEq, Eq)]
#[allow(inconsistent_fields)]
pub enum RioTcpPacket {
    RadioEvent(String),
    UsageReport { team_num: String, unknown: u8, entries: Vec<u8> },
    DisableFaults { comms: u16, twelve_v: u16 },
    RailFaults { six_v: u16, five_v: u16, three_point_three_v: u16 },
    VersionInfo { device_type: DeviceType, unknown: u16, id: u8, name: String, version: String },
    ErrorMessage {
        timestamp: u32,
        sequence_number: u16,
        print_msg: bool,
        error_code: u16,
        /// A warning where it is not an error.
        is_error: bool,
        details: String,
        location: String,
        call_stack: String,
    },
    StandardOutput { timestamp: u32, sequence_number: u16, message: String },
    Unknown(Vec<u8>),
}

/// What a message from the robot holds.
#[allow(inconsistent_fields)]
pub enum RioTcpView {
    RadioEvent(Seq<char>),
    UsageReport { team_num: Seq<char>, unknown: u8, entries: Seq<u8> },
    DisableFaults { comms: u16, twelve_v: u16 },
    RailFaults { six_v: u16, five_v: u16, three_point_three_v: u16 },
    VersionInfo {
        device_type: DeviceType,
        unknown: u16,
        id: u8,
        name: Seq<char>,
        version: Seq<char>,
    },
    ErrorMessage {
        timestamp: u32,
        sequence_number: u16,
        print_msg: bool,
        error_code: u16,
        is_error: bool,
        details: Seq<char>,
        location: Seq<char>,
        call_stack: Seq<char>,
    },
    StandardOutput { timestamp: u32, sequence_number: u16, message: Seq<char> },
    Unknown(Seq<u8>),
}

impl View for RioTcpPacket {
    type V = RioTcpView;

    open spec fn view(&self) -> RioTcpView {
        match self {
            RioTcpPacket::RadioEvent(text) => RioTcpView::RadioEvent(text@),
            RioTcpPacket::UsageReport { team_num, unknown, entries } => RioTcpView::UsageReport {
                team_num: team_num@,
                unknown: *unknown,
                entries: entries@,
            },
            RioTcpPacket::DisableFaults { comms, twelve_v } => RioTcpView::DisableFaults {
                comms: *comms,
                twelve_v: *twelve_v,
            },
            RioTcpPacket::RailFaults { six_v, five_v, three_point_three_v } => {
                RioTcpView::RailFaults {
                    six_v: *six_v,
                    five_v: *five_v,
                    three_point_three_v: *three_point_three_v,
                }
            },
            RioTcpPacket::VersionInfo { device_type, unknown, id, name, version } => {
                RioTcpView::VersionInfo {
                    device_type: *device_type,
                    unknown: *unknown,
                    id: *id,
                    name: name@,
                    version: version@,
                }
            },
            RioTcpPacket::ErrorMessage {
                timestamp,
                sequence_number,
                print_msg,
                error_code,
                is_error,
                details,
                location,
                call_stack,
            } => RioTcpView::ErrorMessage {
                timestamp: *timestamp,
                sequence_number: *sequence_number,
                print_msg: *print_msg,
                error_code: *error_code,
                is_error: *is_error,
                details: details@,
                location: location@,
                call_stack: call_stack@,
            },
            RioTcpPacket::StandardOutput { timestamp, sequence_number, message } => {
                RioTcpView::StandardOutput {
                    timestamp: *timestamp,
                    sequence_number: *sequence_number,
                    message: message@,
                }
            },
            RioTcpPacket::Unknown(bytes) => RioTcpView::Unknown(bytes@),
        }
    }
}

/// Reads the body of an error message: a timestamp, a sequence number, the
/// flag for printing (set by the value 1), an error code, the flag that
/// tells an error (any value but 0) from a warning, and three strings, each
/// behind its big-endian length. What follows the third string is not read.
pub open spec fn parse_error_message(body: Seq<u8>) -> Option<RioTcpView> {
    let first = rest(body, 10);
    let second = rest(first, 2 + be_u16(first[0], first[1]));
    let third = rest(second, 2 + be_u16(second[0], second[1]));
    if body.len() < ERROR_MESSAGE_MIN_LEN || !has_prefixed_string(first) || !has_prefixed_string(
        second,
    ) || !has_prefixed_string(third) {
        None
    } else {
        Some(
            RioTcpView::ErrorMessage {
                timestamp: be_u32(body[0], body[1], body[2], body[3]),
                sequence_number: be_u16(body[4], body[5]),
                print_msg: body[6] == 1,
                error_code: be_u16(body[7], body[8]),
                is_error: body[9] != 0,
                details: lossy_text(prefixed_string(first)),
                location: lossy_text(prefixed_string(second)),
                call_stack: lossy_text(prefixed_string(third)),
            },
        )
    }
}

/// Reads a message from the robot: the type byte, then the body that the
/// type asks for. A radio event and standard output take all that is left
/// as their text. An empty message, a type that is not known, a body of the
/// wrong length and a version message, which is not read yet, give nothing.
pub open spec fn parse_message(bytes: Seq<u8>) -> Option<RioTcpView> {
    let body = rest(bytes, 1);
    if bytes.len() == 0 {
        None
    } else if bytes[0] == RADIO_EVENT {
        Some(RioTcpView::RadioEvent(lossy_text(body)))
    } else if bytes[0] == DISABLE_FAULTS {
        if body.len() != 4 {
            None
        } else {
            Some(
                RioTcpView::DisableFaults {
                    comms: be_u16(body[0], body[1]),
                    twelve_v: be_u16(body[2], body[3]),
                },
            )
        }
    } else if bytes[0] == RAIL_FAULTS {
        if body.len() != 6 {
            None
        } else {
            Some(
                RioTcpView::RailFaults {
                    six_v: be_u16(body[0], body[1]),
                    five_v: be_u16(body[2], body[3]),
                    three_point_three_v: be_u16(body[4], body[5]),
                },
            )
        }
    } else if bytes[0] == ERROR_MESSAGE {
        parse_error_message(body)
    } else if bytes[0] == STANDARD_OUTPUT {
        if body.len() < STANDARD_OUTPUT_MIN_LEN {
            None
        } else {
            Some(
                RioTcpView::StandardOutput {
                    timestamp: be_u32(body[0], body[1], body[2], body[3]),
                    sequence_number: be_u16(body[4], body[5]),
                    message: lossy_text(rest(body, 6)),
                },
            )
        }
    } else {
        None
    }
}

impl RioTcpPacket {
    /// Decodes the body of an error message.
    fn error_message(packet: PacketReader) -> (message: Option<RioTcpPacket>)
        ensures
            message is Some <==> parse_error_message(packet@) is Some,
            message is Some ==> Some(message->0@) == parse_error_message(packet@),
    {
        let mut packet = packet;
        let ghost body = packet@;
        if packet.len() < ERROR_MESSAGE_MIN_LEN {
            return None;
        }
        let timestamp = packet.next_f32().unwrap();
        let sequence_number = packet.next_u16().unwrap();
        let print_msg = packet.next_u8().unwrap() == 0x01;
        let error_code = packet.next_u16().unwrap();
        let is_error = packet.next_u8().unwrap() != 0;
        assert(packet@ == rest(body, 10));

        let details = match packet.extract_prefixed_string() {
            Some(text) => text,
            None => { return None; },
        };
        let location = match packet.extract_prefixed_string() {
            Some(text) => text,
            None => { return None; },
        };
        let call_stack = match packet.extract_prefixed_string() {
            Some(text) => text,
            None => { return None; },
        };

        Some(
            RioTcpPacket::ErrorMessage {
                timestamp,
                sequence_number,
                print_msg,
                error_code,
                is_error,
                details,
                location,
                call_stack,
            },
        )
    }

    /// Decodes a message from the robot, if `bytes` is one that is read.
    /// Nothing of a message that is not whole is handed out.
    pub fn from_bytes(bytes: Vec<u8>) -> (message: Option<RioTcpPacket>)
        ensures
            message is Some <==> parse_message(bytes@) is Some,
            message is Some ==> Some(message->0@) == parse_message(bytes@),
    {
        let mut packet = PacketReader::from_vec(bytes);
        let kind = match packet.next_u8() {
            Some(kind) => kind,
            None => { return None; },
        };
        let ghost body = packet@;
        if kind == RADIO_EVENT {
            let size = packet.len();
            let text = packet.extract_string(size).unwrap();
            assert(body.subrange(0, size as int) == body);
            Some(RioTcpPacket::RadioEvent(text))
        } else if kind == DISABLE_FAULTS {
            if packet.len() != 4 {
                None
            } else {
                let comms = packet.next_u16().unwrap();
                let twelve_v = packet.next_u16().unwrap();
                Some(RioTcpPacket::DisableFaults { comms, twelve_v })
            }
        } else if kind == RAIL_FAULTS {
            if packet.len() != 6 {
                None
            } else {
                let six_v = packet.next_u16().unwrap();
                let five_v = packet.next_u16().unwrap();
                let three_point_three_v = packet.next_u16().unwrap();
                Some(RioTcpPacket::RailFaults { six_v, five_v, three_point_three_v })
            }
        } else if kind == VERSION_INFO {
            None
        } else if kind == ERROR_MESSAGE {
            RioTcpPacket::error_message(packet)
        } else if kind == STANDARD_OUTPUT {
            if packet.len() < STANDARD_OUTPUT_MIN_LEN {
                None
            } else {
                let timestamp = packet.next_f32().unwrap();
                let sequence_number = packet.next_u16().unwrap();
                assert(packet@ == rest(body, 6));
                let size = packet.len();
                let message = packet.extract_string(size).unwrap();
                assert(rest(body, 6).subrange(0, size as int) == rest(body, 6));
                Some(RioTcpPacket::StandardOutput { timestamp, sequence_number, message })
            }
        } else {
            None
        }
    }
}

/// A message from the robot, of either channel.
#[derive(Debug)]
pub enum RioPacket {
    Udp(RioUdpPacket),
    Tcp(RioTcpPacket),
}

} // verus!
