//! Record kinds, severities, and the decoding of one fixed-size packet.

use vstd::prelude::*;
use crate::wire::{le_u32, le_u64, read_le_u32, read_le_u64, PACKET_SIZE};

verus! {

/// The kind of record a packet carries, from its type code.
#[derive(Debug, Clone, Copy, PartialEq, Eq, Structural)]
pub enum MessageType {
    Connection,
    Simple,
    Large,
    Continuation,
    ContinuationEnd,
}

impl MessageType {
    /// The type code of this kind on the wire.
    pub open spec fn code(self) -> u32 {
        match self {
            MessageType::Connection => 0,
            MessageType::Simple => 1,
            MessageType::Large => 2,
            MessageType::Continuation => 3,
            MessageType::ContinuationEnd => 4,
        }
    }

    /// The kind with type code `value`; codes above 4 name no kind.
    pub fn from_u32(value: u32) -> (r: MessageType)
        requires
            value <= 4,
        ensures
            r.code() == value,
    {
        match value {
            0 => MessageType::Connection,
            1 => MessageType::Simple,
            2 => MessageType::Large,
            3 => MessageType::Continuation,
            _ => MessageType::ContinuationEnd,
        }
    }
}

/// How serious a text record is; unknown codes are kept as they came.
#[derive(Debug, Clone, Copy, PartialEq, Eq, Structural)]
pub enum Severity {
    Info,
    Notice,
    Warn,
    Error,
    Unknown(u32),
}

/// The severity that code `value` stands for.
pub open spec fn severity_of(value: u32) -> Severity {
    match value {
        0 => Severity::Info,
        1 => Severity::Notice,
        2 => Severity::Warn,
        3 => Severity::Error,
        _ => Severity::Unknown(value),
    }
}

impl Severity {
    /// Decodes a severity code; never fails.
    pub fn from_u32(value: u32) -> (r: Severity)
        ensures
            r == severity_of(value),
    {
        match value {
            0 => Severity::Info,
            1 => Severity::Notice,
            2 => Severity::Warn,
            3 => Severity::Error,
            e => Severity::Unknown(e),
        }
    }
}

/// Offsets within a packet of the connection payload's fields.
pub const CONN_VERSION_AT: usize = 8;
pub const CONN_PID_AT: usize = 16;
pub const CONN_MACHINE_AT: usize = 24;
pub const CONN_MACHINE_LEN: usize = 32;
pub const CONN_PATH_AT: usize = 56;
pub const CONN_PATH_LEN: usize = 260;

/// Offsets within a packet of the text payload's fields.
pub const TEXT_TIMESTAMP_AT: usize = 8;
pub const TEXT_SEVERITY_AT: usize = 16;
pub const TEXT_MODULE_AT: usize = 20;
pub const TEXT_MODULE_LEN: usize = 32;
pub const TEXT_CHANNEL_AT: usize = 52;
pub const TEXT_CHANNEL_LEN: usize = 32;
pub const TEXT_MESSAGE_AT: usize = 84;
pub const TEXT_MESSAGE_LEN: usize = 256;

/// A connection announcement as it stands on the wire.
#[derive(Debug)]
pub struct RawConnectionMessage {
    pub version: u32,
    pub pid: u64,
    pub machine_name: Vec<u8>,
    pub executable_path: Vec<u8>,
}

/// A text record as it stands on the wire.
#[derive(Debug)]
pub struct RawTextMessage {
    pub timestamp: u64,
    pub severity: u32,
    pub module: Vec<u8>,
    pub channel: Vec<u8>,
    pub message: Vec<u8>,
}

/// One decoded packet.
#[derive(Debug)]
pub enum RawMessage {
    RawConnection(RawConnectionMessage),
    RawText(MessageType, RawTextMessage),
}

/// Why a packet could not be decoded.
#[derive(Debug, Clone, Copy, PartialEq, Eq, Structural)]
pub enum DecodeError {
    /// The bytes end before the packet does.
    Truncated,
    /// The type code names no record kind.
    UnknownType(u32),
}

/// The `len` bytes of packet `p` that start at `at`.
pub open spec fn field_at(p: Seq<u8>, at: usize, len: usize) -> Seq<u8> {
    p.subrange(at as int, at + len)
}

/// The type code of packet `p`.
pub open spec fn type_code(p: Seq<u8>) -> int {
    le_u32(p, 0)
}

/// `m` is what the first `PACKET_SIZE` bytes of `p` hold.
pub open spec fn decodes_to(p: Seq<u8>, m: RawMessage) -> bool {
    &&& p.len() >= PACKET_SIZE
    &&& match m {
        RawMessage::RawConnection(c) => {
            &&& type_code(p) == 0
            &&& c.version == le_u32(p, CONN_VERSION_AT as int)
            &&& c.pid == le_u64(p, CONN_PID_AT as int)
            &&& c.machine_name@ == field_at(p, CONN_MACHINE_AT, CONN_MACHINE_LEN)
            &&& c.executable_path@ == field_at(p, CONN_PATH_AT, CONN_PATH_LEN)
        },
        RawMessage::RawText(t, x) => {
            &&& t != MessageType::Connection
            &&& t.code() == type_code(p)
            &&& x.timestamp == le_u64(p, TEXT_TIMESTAMP_AT as int)
            &&& x.severity == le_u32(p, TEXT_SEVERITY_AT as int)
            &&& x.module@ == field_at(p, TEXT_MODULE_AT, TEXT_MODULE_LEN)
            &&& x.channel@ == field_at(p, TEXT_CHANNEL_AT, TEXT_CHANNEL_LEN)
            &&& x.message@ == field_at(p, TEXT_MESSAGE_AT, TEXT_MESSAGE_LEN)
        },
    }
}

fn copy_field(p: &[u8], at: usize, len: usize) -> (r: Vec<u8>)
    requires
        at + len <= p@.len(),
    ensures
        r@ == field_at(p@, at, len),
{
    // `p.len()` brings the fact that the slice's length fits in a `usize`.
    let _n = p.len();
    let part = vstd::slice::slice_subrange(p, at, at + len);
    vstd::slice::slice_to_vec(part)
}

/// Why the bytes `p` hold no packet, if they do not: they end before the
/// type code, the code names no kind, or they end before the payload frame.
pub open spec fn decode_error(p: Seq<u8>) -> Option<DecodeError> {
    if p.len() < 4 {
        Some(DecodeError::Truncated)
    } else if type_code(p) > 4 {
        Some(DecodeError::UnknownType(type_code(p) as u32))
    } else if p.len() < PACKET_SIZE {
        Some(DecodeError::Truncated)
    } else {
        None
    }
}

/// Decodes one packet from the front of `packet`: the type code, the reserved
/// word, and a payload frame of fixed size read as the shape the type selects.
pub fn read_raw_packet(packet: &[u8]) -> (r: Result<RawMessage, DecodeError>)
    ensures
        decode_error(packet@) matches Some(e) ==> r == Err::<RawMessage, DecodeError>(e),
        decode_error(packet@) is None ==> (r matches Ok(m) && decodes_to(packet@, m)),
{
    if packet.len() < 4 {
        return Err(DecodeError::Truncated);
    }
    let code = read_le_u32(packet, 0);
    if code > 4 {
        return Err(DecodeError::UnknownType(code));
    }
    let kind = MessageType::from_u32(code);
    if packet.len() < PACKET_SIZE {
        return Err(DecodeError::Truncated);
    }
    match kind {
        MessageType::Connection => {
            let c = RawConnectionMessage {
                version: read_le_u32(packet, CONN_VERSION_AT),
                pid: read_le_u64(packet, CONN_PID_AT),
                machine_name: copy_field(packet, CONN_MACHINE_AT, CONN_MACHINE_LEN),
                executable_path: copy_field(packet, CONN_PATH_AT, CONN_PATH_LEN),
            };
            Ok(RawMessage::RawConnection(c))
        },
        t => {
            let x = RawTextMessage {
                timestamp: read_le_u64(packet, TEXT_TIMESTAMP_AT),
                severity: read_le_u32(packet, TEXT_SEVERITY_AT),
                module: copy_field(packet, TEXT_MODULE_AT, TEXT_MODULE_LEN),
                channel: copy_field(packet, TEXT_CHANNEL_AT, TEXT_CHANNEL_LEN),
                message: copy_field(packet, TEXT_MESSAGE_AT, TEXT_MESSAGE_LEN),
            };
            Ok(RawMessage::RawText(t, x))
        },
    }
}

} // verus!
