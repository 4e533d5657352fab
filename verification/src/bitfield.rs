//! Bit-level primitives.
//!
//! The wired input report packs every field into fixed byte offsets, either as
//! a sub-range of bits within one byte (selected by a mask) or as a two-byte
//! little-endian integer. These helpers are the only way the decoder reads
//! bits out of a report, so that every offset is handled uniformly.

use vstd::prelude::*;

verus! {

/// The bitfield selected by `mask` within `byte`: the masked bits, shifted
/// down so that the lowest bit of the mask lands at bit zero.
pub open spec fn spec_extract(byte: u8, mask: u8) -> u8 {
    if mask == 0 {
        0
    } else {
        (byte & mask) >> vstd::std_specs::bits::u8_trailing_zeros(mask)
    }
}

/// Extract the bitfield selected by `mask` from `byte`.
///
/// Total: any byte/mask combination is valid. An empty mask selects the empty
/// field, whose value is zero.
pub fn extract(byte: u8, mask: u8) -> (r: u8)
    ensures
        r == spec_extract(byte, mask),
{
    if mask == 0 {
        0
    } else {
        let shift: u32 = mask.trailing_zeros();
        proof {
            vstd::std_specs::bits::axiom_u8_trailing_zeros(mask);
        }
        (byte & mask) >> shift
    }
}

/// A field selected by a one-bit mask can only be 0 or 1.
pub proof fn lemma_extract_single_bit(byte: u8, mask: u8)
    requires
        mask == 0x01 || mask == 0x02 || mask == 0x04 || mask == 0x08 || mask == 0x10 || mask
            == 0x20 || mask == 0x40 || mask == 0x80,
    ensures
        spec_extract(byte, mask) < 2,
{
    vstd::std_specs::bits::axiom_u8_trailing_zeros(mask);
    let t: u32 = vstd::std_specs::bits::u8_trailing_zeros(mask);
    assert((byte & mask) >> t < 2) by (bit_vector)
        requires
            t < 8,
            (mask >> (t as u8)) & 1u8 == 1u8,
            mask == 0x01 || mask == 0x02 || mask == 0x04 || mask == 0x08 || mask == 0x10 || mask
                == 0x20 || mask == 0x40 || mask == 0x80,
    ;
}

/// The unsigned 16-bit value assembled from a little-endian byte pair.
pub open spec fn spec_u16_le(low: u8, high: u8) -> u16 {
    (low + 256 * high) as u16
}

/// Assemble an unsigned 16-bit value from a little-endian byte pair.
pub fn assemble_u16_le(low: u8, high: u8) -> (r: u16)
    ensures
        r == spec_u16_le(low, high),
{
    low as u16 + 256 * (high as u16)
}

/// The signed 16-bit value assembled from a little-endian byte pair
/// (two's complement).
pub open spec fn spec_i16_le(low: u8, high: u8) -> i16 {
    if high < 128 {
        (low + 256 * high) as i16
    } else {
        (low + 256 * high - 65536) as i16
    }
}

/// Assemble a signed 16-bit value from a little-endian byte pair.
pub fn assemble_i16_le(low: u8, high: u8) -> (r: i16)
    ensures
        r == spec_i16_le(low, high),
{
    let v: u32 = low as u32 + 256 * (high as u32);
    if v >= 32768 {
        (v as i32 - 65536) as i16
    } else {
        v as i16
    }
}

/// The 12-bit value assembled from a low nibble and a full high byte.
pub open spec fn spec_u12(low_nibble: u8, high: u8) -> u16 {
    (low_nibble + 16 * high) as u16
}

/// Assemble a 12-bit value from a low nibble and a full high byte.
pub fn assemble_u12(low_nibble: u8, high: u8) -> (r: u16)
    ensures
        r == spec_u12(low_nibble, high),
{
    low_nibble as u16 + 16 * (high as u16)
}

/// The signed 8-bit value whose two's-complement bit pattern is `v`.
pub open spec fn spec_i8_from_bits(v: u8) -> i8 {
    if v < 128 {
        v as i8
    } else {
        (v - 256) as i8
    }
}

/// Reinterpret a byte as a signed 8-bit value (two's complement).
pub fn i8_from_bits(v: u8) -> (r: i8)
    ensures
        r == spec_i8_from_bits(v),
{
    if v < 128 {
        v as i8
    } else {
        (v as i16 - 256) as i8
    }
}

/// The signed 8-bit value whose bit pattern is the low byte of a non-negative
/// integer: how a wider value narrows when it is squeezed into one byte.
pub open spec fn spec_wrap_i8(v: int) -> i8
    recommends
        v >= 0,
{
    spec_i8_from_bits((v % 256) as u8)
}

} // verus!
