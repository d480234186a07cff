//! Little-endian byte views of 16- and 32-bit values.
//!
//! Multi-byte values are interpreted and stored little-endian everywhere on
//! the bus, so wide accesses are specified as compositions of byte accesses.

use vstd::prelude::*;

verus! {

/// Byte `i` (0 = least significant) of a 32-bit value.
pub open spec fn u32_byte(v: u32, i: int) -> u8 {
    if i == 0 {
        (v & 0xFF) as u8
    } else if i == 1 {
        ((v >> 8) & 0xFF) as u8
    } else if i == 2 {
        ((v >> 16) & 0xFF) as u8
    } else {
        ((v >> 24) & 0xFF) as u8
    }
}

/// `v` with byte `i` (0 = least significant) replaced by `b`.
pub open spec fn u32_set_byte(v: u32, i: int, b: u8) -> u32 {
    if i == 0 {
        (v & 0xFFFF_FF00) | (b as u32)
    } else if i == 1 {
        (v & 0xFFFF_00FF) | ((b as u32) << 8)
    } else if i == 2 {
        (v & 0xFF00_FFFF) | ((b as u32) << 16)
    } else {
        (v & 0x00FF_FFFF) | ((b as u32) << 24)
    }
}

/// Byte `i` (0 = least significant) of a 16-bit value.
pub open spec fn u16_byte(v: u16, i: int) -> u8 {
    if i == 0 {
        (v & 0xFF) as u8
    } else {
        ((v >> 8) & 0xFF) as u8
    }
}

/// The 16-bit value whose little-endian bytes are `b0`, `b1`.
pub open spec fn u16_from_bytes(b0: u8, b1: u8) -> u16 {
    (b0 as u16) | ((b1 as u16) << 8)
}

/// The 32-bit value whose little-endian bytes are `b0` .. `b3`.
pub open spec fn u32_from_bytes(b0: u8, b1: u8, b2: u8, b3: u8) -> u32 {
    (b0 as u32) | ((b1 as u32) << 8) | ((b2 as u32) << 16) | ((b3 as u32) << 24)
}

/// Splitting a 16-bit value into its little-endian bytes and recomposing
/// them yields the value back.
pub proof fn lemma_u16_bytes_roundtrip(v: u16)
    ensures
        u16_from_bytes(u16_byte(v, 0), u16_byte(v, 1)) == v,
{
    assert(((v & 0xFF) as u8 as u16) | ((((v >> 8) & 0xFF) as u8 as u16) << 8) == v)
        by (bit_vector);
}

/// Splitting a 32-bit value into its little-endian bytes and recomposing
/// them yields the value back.
pub proof fn lemma_u32_bytes_roundtrip(v: u32)
    ensures
        u32_from_bytes(u32_byte(v, 0), u32_byte(v, 1), u32_byte(v, 2), u32_byte(v, 3)) == v,
{
    assert(((v & 0xFF) as u8 as u32) | ((((v >> 8) & 0xFF) as u8 as u32) << 8)
        | ((((v >> 16) & 0xFF) as u8 as u32) << 16) | ((((v >> 24) & 0xFF) as u8 as u32) << 24)
        == v) by (bit_vector);
}

/// Replacing byte `i` then reading a byte gives the new byte at `i` and the
/// old byte everywhere else.
pub proof fn lemma_u32_set_byte_get(v: u32, i: int, b: u8, j: int)
    requires
        0 <= i < 4,
        0 <= j < 4,
    ensures
        i == j ==> u32_byte(u32_set_byte(v, i, b), j) == b,
        i != j ==> u32_byte(u32_set_byte(v, i, b), j) == u32_byte(v, j),
{
    assert((((v & 0xFFFF_FF00) | (b as u32)) & 0xFF) as u8 == b) by (bit_vector);
    assert(((((v & 0xFFFF_00FF) | ((b as u32) << 8)) >> 8) & 0xFF) as u8 == b) by (bit_vector);
    assert(((((v & 0xFF00_FFFF) | ((b as u32) << 16)) >> 16) & 0xFF) as u8 == b) by (bit_vector);
    assert(((((v & 0x00FF_FFFF) | ((b as u32) << 24)) >> 24) & 0xFF) as u8 == b) by (bit_vector);
    let w0 = (v & 0xFFFF_FF00) | (b as u32);
    let w1 = (v & 0xFFFF_00FF) | ((b as u32) << 8);
    let w2 = (v & 0xFF00_FFFF) | ((b as u32) << 16);
    let w3 = (v & 0x00FF_FFFF) | ((b as u32) << 24);
    assert((w0 >> 8) & 0xFF == (v >> 8) & 0xFF && (w0 >> 16) & 0xFF == (v >> 16) & 0xFF
        && (w0 >> 24) & 0xFF == (v >> 24) & 0xFF) by (bit_vector)
        requires
            w0 == (v & 0xFFFF_FF00) | (b as u32),
    ;
    assert(w1 & 0xFF == v & 0xFF && (w1 >> 16) & 0xFF == (v >> 16) & 0xFF && (w1 >> 24) & 0xFF
        == (v >> 24) & 0xFF) by (bit_vector)
        requires
            w1 == (v & 0xFFFF_00FF) | ((b as u32) << 8),
    ;
    assert(w2 & 0xFF == v & 0xFF && (w2 >> 8) & 0xFF == (v >> 8) & 0xFF && (w2 >> 24) & 0xFF
        == (v >> 24) & 0xFF) by (bit_vector)
        requires
            w2 == (v & 0xFF00_FFFF) | ((b as u32) << 16),
    ;
    assert(w3 & 0xFF == v & 0xFF && (w3 >> 8) & 0xFF == (v >> 8) & 0xFF && (w3 >> 16) & 0xFF
        == (v >> 16) & 0xFF) by (bit_vector)
        requires
            w3 == (v & 0x00FF_FFFF) | ((b as u32) << 24),
    ;
}

} // verus!
