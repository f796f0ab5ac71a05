//! Fixed packet layout and little-endian integer reads.

use vstd::prelude::*;
use byteorder::{ByteOrder, LittleEndian};

verus! {

/// Type code and reserved word that open every packet.
pub const HEADER_SIZE: usize = 8;

/// In-memory size of the connection payload: `u32 version`, four bytes of
/// alignment, `u64 pid`, `[u8; 32]` machine name, `[u8; 260]` executable path,
/// rounded up to the 8-byte alignment of `pid`.
pub const CONNECTION_PAYLOAD_SIZE: usize = 312;

/// In-memory size of the text payload: `u64 timestamp`, `u32 severity`,
/// `[u8; 32]` module, `[u8; 32]` channel, `[u8; 256]` message, rounded up to
/// the 8-byte alignment of `timestamp`.
pub const TEXT_PAYLOAD_SIZE: usize = 336;

/// Every payload frame is as large as the larger of the two payload shapes.
pub const PAYLOAD_SIZE: usize = TEXT_PAYLOAD_SIZE;

/// Bytes that one packet occupies on the wire, whatever its type.
pub const PACKET_SIZE: usize = HEADER_SIZE + PAYLOAD_SIZE;

/// The frame holds either payload shape, and is no larger than needed.
pub proof fn lemma_payload_frame_fits_both_shapes()
    ensures
        PAYLOAD_SIZE >= CONNECTION_PAYLOAD_SIZE,
        PAYLOAD_SIZE >= TEXT_PAYLOAD_SIZE,
        PAYLOAD_SIZE == CONNECTION_PAYLOAD_SIZE || PAYLOAD_SIZE == TEXT_PAYLOAD_SIZE,
{
}

/// The little-endian `u32` held by the four bytes of `b` that start at `at`.
pub open spec fn le_u32(b: Seq<u8>, at: int) -> int {
    b[at] as int + b[at + 1] as int * 0x100 + b[at + 2] as int * 0x1_0000 + b[at + 3] as int
        * 0x100_0000
}

/// The little-endian `u64` held by the eight bytes of `b` that start at `at`.
pub open spec fn le_u64(b: Seq<u8>, at: int) -> int {
    le_u32(b, at) + le_u32(b, at + 4) * 0x1_0000_0000
}

/// Relies on `<byteorder::LittleEndian as ByteOrder>::read_u32`: it reads
/// the first four bytes of its argument as a little-endian `u32`, and panics
/// when fewer than four are given.
#[verifier::external_body]
pub(crate) fn read_le_u32(buf: &[u8], at: usize) -> (r: u32)
    requires
        at + 4 <= buf@.len(),
    ensures
        r as int == le_u32(buf@, at as int),
{
    LittleEndian::read_u32(&buf[at..])
}

/// Relies on `<byteorder::LittleEndian as ByteOrder>::read_u64`: it reads
/// the first eight bytes of its argument as a little-endian `u64`, and panics
/// when fewer than eight are given.
#[verifier::external_body]
pub(crate) fn read_le_u64(buf: &[u8], at: usize) -> (r: u64)
    requires
        at + 8 <= buf@.len(),
    ensures
        r as int == le_u64(buf@, at as int),
{
    LittleEndian::read_u64(&buf[at..])
}

} // verus!
