//! Little-endian field access and signed-byte reinterpretation, shared by
//! the record decoders.

use vstd::prelude::*;
use vstd::bytes::{
    spec_u16_from_le_bytes, spec_u32_from_le_bytes, spec_u64_from_le_bytes, u16_from_le_bytes,
    u32_from_le_bytes, u64_from_le_bytes,
};
use vstd::slice::slice_subrange;

verus! {

/// The value of a byte reinterpreted as a two's-complement signed octet.
pub open spec fn spec_signed8(b: u8) -> int {
    if b < 128 {
        b as int
    } else {
        b as int - 256
    }
}

/// The byte whose two's-complement reading is the given signed value.
pub open spec fn spec_unsigned8(n: int) -> u8
    recommends
        -128 <= n < 128,
{
    if n >= 0 {
        n as u8
    } else {
        (n + 256) as u8
    }
}

/// The value of a 16-bit word reinterpreted as two's-complement.
pub open spec fn spec_signed16(v: u16) -> int {
    if v < 32768 {
        v as int
    } else {
        v as int - 65536
    }
}

/// The 16-bit word whose two's-complement reading is the given signed value.
pub open spec fn spec_unsigned16(n: int) -> u16
    recommends
        -32768 <= n < 32768,
{
    if n >= 0 {
        n as u16
    } else {
        (n + 65536) as u16
    }
}

pub fn i8_from_byte(b: u8) -> (r: i8)
    ensures
        r as int == spec_signed8(b),
{
    if b < 128 {
        b as i8
    } else {
        ((b as i16) - 256) as i8
    }
}

pub fn byte_from_i8(v: i8) -> (b: u8)
    ensures
        b == spec_unsigned8(v as int),
{
    if v >= 0 {
        v as u8
    } else {
        ((v as i16) + 256) as u8
    }
}

pub fn i16_from_word(v: u16) -> (r: i16)
    ensures
        r as int == spec_signed16(v),
{
    if v < 32768 {
        v as i16
    } else {
        ((v as i32) - 65536) as i16
    }
}

pub fn word_from_i16(v: i16) -> (w: u16)
    ensures
        w == spec_unsigned16(v as int),
{
    if v >= 0 {
        v as u16
    } else {
        ((v as i32) + 65536) as u16
    }
}

/// Reads the little-endian 16-bit field that starts at `off`.
pub fn read_u16_at(data: &[u8], off: usize) -> (r: u16)
    requires
        off + 2 <= data@.len(),
    ensures
        r == spec_u16_from_le_bytes(data@.subrange(off as int, off as int + 2)),
{
    let _n = data.len();
    u16_from_le_bytes(slice_subrange(data, off, off + 2))
}

/// Reads the little-endian 32-bit field that starts at `off`.
pub fn read_u32_at(data: &[u8], off: usize) -> (r: u32)
    requires
        off + 4 <= data@.len(),
    ensures
        r == spec_u32_from_le_bytes(data@.subrange(off as int, off as int + 4)),
{
    let _n = data.len();
    u32_from_le_bytes(slice_subrange(data, off, off + 4))
}

/// Reads the little-endian 64-bit field that starts at `off`.
pub fn read_u64_at(data: &[u8], off: usize) -> (r: u64)
    requires
        off + 8 <= data@.len(),
    ensures
        r == spec_u64_from_le_bytes(data@.subrange(off as int, off as int + 8)),
{
    let _n = data.len();
    u64_from_le_bytes(slice_subrange(data, off, off + 8))
}

} // verus!
