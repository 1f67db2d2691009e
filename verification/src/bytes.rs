//! Big-endian and little-endian views of the multi-byte integers that appear
//! in the wire formats, with round-trip lemmas.

use vstd::prelude::*;

verus! {

/// The two bytes of `x` in big-endian order.
pub open spec fn spec_u16_be(x: u16) -> Seq<u8> {
    seq![((x >> 8) & 0xff) as u8, (x & 0xff) as u8]
}

/// The two bytes of `x` in little-endian order.
pub open spec fn spec_u16_le(x: u16) -> Seq<u8> {
    seq![(x & 0xff) as u8, ((x >> 8) & 0xff) as u8]
}

/// The four bytes of `x` in big-endian order.
pub open spec fn spec_u32_be(x: u32) -> Seq<u8> {
    seq![
        ((x >> 24) & 0xff) as u8,
        ((x >> 16) & 0xff) as u8,
        ((x >> 8) & 0xff) as u8,
        (x & 0xff) as u8,
    ]
}

/// The u16 read from two bytes in big-endian order.
pub open spec fn spec_u16_from_be(b0: u8, b1: u8) -> u16 {
    (b0 * 0x100 + b1) as u16
}

/// The u16 read from two bytes in little-endian order.
pub open spec fn spec_u16_from_le(b0: u8, b1: u8) -> u16 {
    (b0 + b1 * 0x100) as u16
}

/// The u32 read from four bytes in big-endian order.
pub open spec fn spec_u32_from_be(b0: u8, b1: u8, b2: u8, b3: u8) -> u32 {
    (b0 * 0x1000000 + b1 * 0x10000 + b2 * 0x100 + b3) as u32
}

/// The u32 read from four bytes in little-endian order.
pub open spec fn spec_u32_from_le(b0: u8, b1: u8, b2: u8, b3: u8) -> u32 {
    (b0 + b1 * 0x100 + b2 * 0x10000 + b3 * 0x1000000) as u32
}

pub proof fn lemma_u16_be_round_trip(x: u16)
    ensures
        spec_u16_from_be(spec_u16_be(x)[0], spec_u16_be(x)[1]) == x,
{
    assert(((((x >> 8) & 0xff) as u8) as int * 0x100 + ((x & 0xff) as u8) as int) as u16 == x)
        by (bit_vector);
}

pub proof fn lemma_u16_le_round_trip(x: u16)
    ensures
        spec_u16_from_le(spec_u16_le(x)[0], spec_u16_le(x)[1]) == x,
{
    assert(((((x & 0xff) as u8) as int + (((x >> 8) & 0xff) as u8) as int * 0x100) as u16) == x)
        by (bit_vector);
}

pub proof fn lemma_u32_be_round_trip(x: u32)
    ensures
        spec_u32_from_be(
            spec_u32_be(x)[0],
            spec_u32_be(x)[1],
            spec_u32_be(x)[2],
            spec_u32_be(x)[3],
        ) == x,
{
    assert(((((x >> 24) & 0xff) as u8) as int * 0x1000000 + (((x >> 16) & 0xff) as u8) as int
        * 0x10000 + (((x >> 8) & 0xff) as u8) as int * 0x100 + ((x & 0xff) as u8) as int) as u32
        == x) by (bit_vector);
}

/// The big-endian bytes of a u16, highest first.
pub fn u16_to_be(x: u16) -> (r: (u8, u8))
    ensures
        seq![r.0, r.1] == spec_u16_be(x),
{
    (((x >> 8) & 0xff) as u8, (x & 0xff) as u8)
}

/// The little-endian bytes of a u16, lowest first.
pub fn u16_to_le(x: u16) -> (r: (u8, u8))
    ensures
        seq![r.0, r.1] == spec_u16_le(x),
{
    ((x & 0xff) as u8, ((x >> 8) & 0xff) as u8)
}

/// The big-endian bytes of a u32, highest first.
pub fn u32_to_be(x: u32) -> (r: (u8, u8, u8, u8))
    ensures
        seq![r.0, r.1, r.2, r.3] == spec_u32_be(x),
{
    (
        ((x >> 24) & 0xff) as u8,
        ((x >> 16) & 0xff) as u8,
        ((x >> 8) & 0xff) as u8,
        (x & 0xff) as u8,
    )
}

/// The u16 read from two bytes in big-endian order.
pub fn u16_from_be(b0: u8, b1: u8) -> (r: u16)
    ensures
        r == spec_u16_from_be(b0, b1),
{
    (b0 as u16) * 0x100 + (b1 as u16)
}

/// The u16 read from two bytes in little-endian order.
pub fn u16_from_le(b0: u8, b1: u8) -> (r: u16)
    ensures
        r == spec_u16_from_le(b0, b1),
{
    (b0 as u16) + (b1 as u16) * 0x100
}

/// The u32 read from four bytes in big-endian order.
pub fn u32_from_be(b0: u8, b1: u8, b2: u8, b3: u8) -> (r: u32)
    ensures
        r == spec_u32_from_be(b0, b1, b2, b3),
{
    (b0 as u32) * 0x1000000 + (b1 as u32) * 0x10000 + (b2 as u32) * 0x100 + (b3 as u32)
}

/// The u32 read from four bytes in little-endian order.
pub fn u32_from_le(b0: u8, b1: u8, b2: u8, b3: u8) -> (r: u32)
    ensures
        r == spec_u32_from_le(b0, b1, b2, b3),
{
    (b0 as u32) + (b1 as u32) * 0x100 + (b2 as u32) * 0x10000 + (b3 as u32) * 0x1000000
}

} // verus!
