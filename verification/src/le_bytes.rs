//! Little-endian byte layouts of the integers that the sensors and the
//! readout frames exchange.

use vstd::prelude::*;

verus! {

/// The two bytes of `v`, least significant first.
pub open spec fn u16_le_seq(v: u16) -> Seq<u8> {
    seq![(v % 256) as u8, (v / 256) as u8]
}

/// The four bytes of `v`, least significant first.
pub open spec fn u32_le_seq(v: u32) -> Seq<u8> {
    seq![
        (v % 0x100) as u8,
        ((v / 0x100) % 0x100) as u8,
        ((v / 0x1_0000) % 0x100) as u8,
        (v / 0x100_0000) as u8,
    ]
}

/// The unsigned value of two bytes, least significant first.
pub open spec fn u16_le_value(lo: u8, hi: u8) -> int {
    lo + 256 * hi
}

/// The two's complement value of two bytes, least significant first.
pub open spec fn i16_le_value(lo: u8, hi: u8) -> int {
    let u = u16_le_value(lo, hi);
    if u >= 0x8000 {
        u - 0x1_0000
    } else {
        u
    }
}

/// The unsigned value of four bytes, least significant first.
pub open spec fn u32_le_value(b0: u8, b1: u8, b2: u8, b3: u8) -> int {
    b0 + 0x100 * b1 + 0x1_0000 * b2 + 0x100_0000 * b3
}

/// Encodes `v` as four little-endian bytes.
pub fn u32_to_le_bytes(v: u32) -> (r: [u8; 4])
    ensures
        r@ == u32_le_seq(v),
{
    let b0 = (v & 0xff) as u8;
    let b1 = ((v >> 8u32) & 0xff) as u8;
    let b2 = ((v >> 16u32) & 0xff) as u8;
    let b3 = (v >> 24u32) as u8;
    assert(b0 == (v % 0x100) as u8 && b1 == ((v / 0x100) % 0x100) as u8 && b2 == ((v / 0x1_0000)
        % 0x100) as u8 && b3 == (v / 0x100_0000) as u8) by (bit_vector)
        requires
            b0 == (v & 0xff) as u8,
            b1 == ((v >> 8u32) & 0xff) as u8,
            b2 == ((v >> 16u32) & 0xff) as u8,
            b3 == (v >> 24u32) as u8,
    ;
    let r = [b0, b1, b2, b3];
    assert(r@ =~= u32_le_seq(v));
    r
}

/// Decodes four little-endian bytes.
pub fn u32_from_le_bytes(b: [u8; 4]) -> (r: u32)
    ensures
        r == u32_le_value(b[0], b[1], b[2], b[3]),
{
    let b0 = b[0];
    let b1 = b[1];
    let b2 = b[2];
    let b3 = b[3];
    let r = (b0 as u32) | ((b1 as u32) << 8u32) | ((b2 as u32) << 16u32) | ((b3 as u32) << 24u32);
    assert(r == b0 + 0x100 * b1 + 0x1_0000 * b2 + 0x100_0000 * b3) by (bit_vector)
        requires
            r == (b0 as u32) | ((b1 as u32) << 8u32) | ((b2 as u32) << 16u32) | ((b3 as u32)
                << 24u32),
    ;
    r
}

/// Decodes two little-endian bytes as an unsigned value.
pub fn u16_from_le_bytes(b: [u8; 2]) -> (r: u16)
    ensures
        r == u16_le_value(b[0], b[1]),
{
    let lo = b[0];
    let hi = b[1];
    let r = (lo as u16) | ((hi as u16) << 8u16);
    assert(r == lo + 256 * hi) by (bit_vector)
        requires
            r == (lo as u16) | ((hi as u16) << 8u16),
    ;
    r
}

/// Decodes two little-endian bytes as a two's complement value.
pub fn i16_from_le_bytes(b: [u8; 2]) -> (r: i16)
    ensures
        r == i16_le_value(b[0], b[1]),
{
    let u = u16_from_le_bytes(b);
    if u >= 0x8000 {
        let r = (u - 0x8000) as i16 - 0x4000 - 0x4000;
        r
    } else {
        u as i16
    }
}

/// Encoding a `u32` and decoding the bytes gives the value back, and the
/// bytes of a decoded value are the bytes that were decoded.
pub proof fn lemma_u32_le_roundtrip(v: u32, b0: u8, b1: u8, b2: u8, b3: u8)
    ensures
        u32_le_seq(v).len() == 4,
        u32_le_value(u32_le_seq(v)[0], u32_le_seq(v)[1], u32_le_seq(v)[2], u32_le_seq(v)[3]) == v,
        0 <= u32_le_value(b0, b1, b2, b3) <= u32::MAX,
        u32_le_seq(u32_le_value(b0, b1, b2, b3) as u32) == seq![b0, b1, b2, b3],
{
    assert((v % 0x100) as u8 + 0x100 * ((v / 0x100) % 0x100) as u8 + 0x1_0000 * ((v / 0x1_0000)
        % 0x100) as u8 + 0x100_0000 * (v / 0x100_0000) as u8 == v) by (bit_vector);
    let w = b0 + 0x100 * b1 + 0x1_0000 * b2 + 0x100_0000 * b3;
    assert(0 <= b0 + 0x100 * b1 + 0x1_0000 * b2 + 0x100_0000 * b3 <= 0xffff_ffff) by (bit_vector);
    let wu = w as u32;
    assert((wu % 0x100) as u8 == b0 && ((wu / 0x100) % 0x100) as u8 == b1 && ((wu / 0x1_0000)
        % 0x100) as u8 == b2 && (wu / 0x100_0000) as u8 == b3) by (bit_vector)
        requires
            wu == b0 + 0x100 * b1 + 0x1_0000 * b2 + 0x100_0000 * b3,
    ;
    assert(u32_le_seq(wu) =~= seq![b0, b1, b2, b3]);
}

} // verus!
