//! Little-endian integers read from a byte buffer.

use byteorder::{ByteOrder, LittleEndian};
use vstd::prelude::*;

verus! {

/// The 16-bit integer whose little-endian encoding starts `buf`.
pub open spec fn le_u16(buf: Seq<u8>) -> u16
    recommends
        buf.len() >= 2,
{
    (buf[0] as int + buf[1] as int * 0x100) as u16
}

/// The 32-bit integer whose little-endian encoding starts `buf`.
pub open spec fn le_u32(buf: Seq<u8>) -> u32
    recommends
        buf.len() >= 4,
{
    (buf[0] as int + buf[1] as int * 0x100 + buf[2] as int * 0x1_0000 + buf[3] as int
        * 0x100_0000) as u32
}

/// Calls `byteorder::LittleEndian::read_u16`, which panics on a buffer of
/// fewer than two bytes and otherwise returns the integer encoded by the
/// first two, least significant byte first.
#[verifier::external_body]
pub(crate) fn read_u16_le(buf: &[u8]) -> (value: u16)
    requires
        buf@.len() >= 2,
    ensures
        value == le_u16(buf@),
{
    LittleEndian::read_u16(buf)
}

/// Calls `byteorder::LittleEndian::read_u32`, which panics on a buffer of
/// fewer than four bytes and otherwise returns the integer encoded by the
/// first four, least significant byte first.
#[verifier::external_body]
pub(crate) fn read_u32_le(buf: &[u8]) -> (value: u32)
    requires
        buf@.len() >= 4,
    ensures
        value == le_u32(buf@),
{
    LittleEndian::read_u32(buf)
}

} // verus!
