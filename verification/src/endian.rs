//! Fixed-width unsigned integers as they lie in a byte stream, under either byte order.

use byteorder::ByteOrder;
use vstd::prelude::*;

verus! {

/// The order in which the bytes of a multi-byte integer follow each other.
#[derive(Clone, Copy, Debug, PartialEq, Eq, Structural)]
pub enum Endianness {
    /// Least significant byte first.
    Little,
    /// Most significant byte first.
    Big,
}

/// The 16-bit value whose little-endian encoding is the first two bytes of `b`.
pub open spec fn u16_from_le(b: Seq<u8>) -> u16 {
    (b[0] as int + b[1] as int * 0x100) as u16
}

/// The 16-bit value whose big-endian encoding is the first two bytes of `b`.
pub open spec fn u16_from_be(b: Seq<u8>) -> u16 {
    (b[1] as int + b[0] as int * 0x100) as u16
}

/// The 32-bit value whose little-endian encoding is the first four bytes of `b`.
pub open spec fn u32_from_le(b: Seq<u8>) -> u32 {
    (b[0] as int + b[1] as int * 0x100 + b[2] as int * 0x1_0000 + b[3] as int * 0x100_0000) as u32
}

/// The 32-bit value whose big-endian encoding is the first four bytes of `b`.
pub open spec fn u32_from_be(b: Seq<u8>) -> u32 {
    (b[3] as int + b[2] as int * 0x100 + b[1] as int * 0x1_0000 + b[0] as int * 0x100_0000) as u32
}

/// The 16-bit value encoded by the first two bytes of `b` under `order`.
pub open spec fn u16_from(b: Seq<u8>, order: Endianness) -> u16 {
    match order {
        Endianness::Little => u16_from_le(b),
        Endianness::Big => u16_from_be(b),
    }
}

/// The 32-bit value encoded by the first four bytes of `b` under `order`.
pub open spec fn u32_from(b: Seq<u8>, order: Endianness) -> u32 {
    match order {
        Endianness::Little => u32_from_le(b),
        Endianness::Big => u32_from_be(b),
    }
}

/// The value whose four bytes are those of `x` in reverse order.
pub open spec fn swapped_u32(x: u32) -> u32 {
    ((x as int % 0x100) * 0x100_0000 + (x as int / 0x100 % 0x100) * 0x1_0000 + (x as int
        / 0x1_0000 % 0x100) * 0x100 + x as int / 0x100_0000) as u32
}

/// Reverses the byte order of `x`.
pub fn swap_u32(x: u32) -> (r: u32)
    ensures
        r == swapped_u32(x),
{
    let r: u32 = (x << 24) | ((x & 0xff00) << 8) | ((x >> 8) & 0xff00) | (x >> 24);
    assert(r == ((x % 0x100) * 0x100_0000 + (x / 0x100 % 0x100) * 0x1_0000 + (x / 0x1_0000
        % 0x100) * 0x100 + x / 0x100_0000) as u32) by (bit_vector)
        requires
            r == (x << 24) | ((x & 0xff00) << 8) | ((x >> 8) & 0xff00) | (x >> 24),
    ;
    r
}

/// The base-256 digits of a number are the four bytes it was put together from.
proof fn lemma_base_256_digits(b0: int, b1: int, b2: int, b3: int)
    requires
        0 <= b0 < 0x100,
        0 <= b1 < 0x100,
        0 <= b2 < 0x100,
        0 <= b3 < 0x100,
    ensures
        ({
            let x = b0 + b1 * 0x100 + b2 * 0x1_0000 + b3 * 0x100_0000;
            &&& 0 <= x <= u32::MAX
            &&& x % 0x100 == b0
            &&& x / 0x100 % 0x100 == b1
            &&& x / 0x1_0000 % 0x100 == b2
            &&& x / 0x100_0000 == b3
        }),
{
    let x = b0 + b1 * 0x100 + b2 * 0x1_0000 + b3 * 0x100_0000;
    let q1 = b1 + b2 * 0x100 + b3 * 0x1_0000;
    let q2 = b2 + b3 * 0x100;
    assert(x == q1 * 0x100 + b0);
    assert(x / 0x100 == q1 && x % 0x100 == b0);
    assert(x == q2 * 0x1_0000 + (b0 + b1 * 0x100));
    assert(x / 0x1_0000 == q2);
    assert(q1 == q2 * 0x100 + b1);
    assert(q1 % 0x100 == b1);
    assert(x == b3 * 0x100_0000 + (b0 + b1 * 0x100 + b2 * 0x1_0000));
    assert(x / 0x100_0000 == b3);
    assert(q2 % 0x100 == b2);
}

/// Reading four bytes as little-endian and reversing the value's bytes gives the
/// big-endian reading of the same four bytes, and the other way round.
pub proof fn lemma_swapped_reading(b: Seq<u8>)
    requires
        b.len() >= 4,
    ensures
        swapped_u32(u32_from_le(b)) == u32_from_be(b),
        swapped_u32(u32_from_be(b)) == u32_from_le(b),
{
    lemma_base_256_digits(b[0] as int, b[1] as int, b[2] as int, b[3] as int);
    lemma_base_256_digits(b[3] as int, b[2] as int, b[1] as int, b[0] as int);
}

/// `byteorder::LittleEndian::read_u16`: the crate builds the value from the first two
/// bytes of the buffer with `u16::from_le_bytes`, and panics on a shorter buffer.
#[verifier::external_body]
fn le_u16(buf: &[u8]) -> (r: u16)
    requires
        buf@.len() >= 2,
    ensures
        r == u16_from_le(buf@),
{
    byteorder::LittleEndian::read_u16(buf)
}

/// `byteorder::BigEndian::read_u16`: the crate builds the value from the first two
/// bytes of the buffer with `u16::from_be_bytes`, and panics on a shorter buffer.
#[verifier::external_body]
fn be_u16(buf: &[u8]) -> (r: u16)
    requires
        buf@.len() >= 2,
    ensures
        r == u16_from_be(buf@),
{
    byteorder::BigEndian::read_u16(buf)
}

/// `byteorder::LittleEndian::read_u32`: the crate builds the value from the first four
/// bytes of the buffer with `u32::from_le_bytes`, and panics on a shorter buffer.
#[verifier::external_body]
fn le_u32(buf: &[u8]) -> (r: u32)
    requires
        buf@.len() >= 4,
    ensures
        r == u32_from_le(buf@),
{
    byteorder::LittleEndian::read_u32(buf)
}

/// `byteorder::BigEndian::read_u32`: the crate builds the value from the first four
/// bytes of the buffer with `u32::from_be_bytes`, and panics on a shorter buffer.
#[verifier::external_body]
fn be_u32(buf: &[u8]) -> (r: u32)
    requires
        buf@.len() >= 4,
    ensures
        r == u32_from_be(buf@),
{
    byteorder::BigEndian::read_u32(buf)
}

/// Decodes the first two bytes of `buf` under `order`.
pub(crate) fn decode_u16(buf: &[u8], order: Endianness) -> (r: u16)
    requires
        buf@.len() >= 2,
    ensures
        r == u16_from(buf@, order),
{
    match order {
        Endianness::Little => le_u16(buf),
        Endianness::Big => be_u16(buf),
    }
}

/// Decodes the first four bytes of `buf` under `order`.
pub(crate) fn decode_u32(buf: &[u8], order: Endianness) -> (r: u32)
    requires
        buf@.len() >= 4,
    ensures
        r == u32_from(buf@, order),
{
    match order {
        Endianness::Little => le_u32(buf),
        Endianness::Big => be_u32(buf),
    }
}

} // verus!
