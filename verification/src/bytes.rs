//! Little-endian encoding and decoding of the fixed-width integers used by
//! the virtio-block wire formats: the 16-byte request header, the 16-byte
//! discard/write-zeroes segment, and the device config space.

use vstd::prelude::*;

verus! {

/// The two little-endian bytes of a 16-bit value, least significant first.
pub open spec fn u16_le_bytes(x: u16) -> Seq<u8> {
    seq![(x & 0xff) as u8, ((x >> 8) & 0xff) as u8]
}

/// The four little-endian bytes of a 32-bit value, least significant first.
pub open spec fn u32_le_bytes(x: u32) -> Seq<u8> {
    seq![
        (x & 0xff) as u8,
        ((x >> 8) & 0xff) as u8,
        ((x >> 16) & 0xff) as u8,
        ((x >> 24) & 0xff) as u8,
    ]
}

/// The eight little-endian bytes of a 64-bit value, least significant first.
pub open spec fn u64_le_bytes(x: u64) -> Seq<u8> {
    seq![
        (x & 0xff) as u8,
        ((x >> 8) & 0xff) as u8,
        ((x >> 16) & 0xff) as u8,
        ((x >> 24) & 0xff) as u8,
        ((x >> 32) & 0xff) as u8,
        ((x >> 40) & 0xff) as u8,
        ((x >> 48) & 0xff) as u8,
        ((x >> 56) & 0xff) as u8,
    ]
}

/// The 32-bit value read from four little-endian bytes.
pub open spec fn u32_from_le(b: Seq<u8>) -> u32
    recommends
        b.len() == 4,
{
    (b[0] as u32) | ((b[1] as u32) << 8) | ((b[2] as u32) << 16) | ((b[3] as u32) << 24)
}

/// The 64-bit value read from eight little-endian bytes.
pub open spec fn u64_from_le(b: Seq<u8>) -> u64
    recommends
        b.len() == 8,
{
    (b[0] as u64) | ((b[1] as u64) << 8) | ((b[2] as u64) << 16) | ((b[3] as u64) << 24)
        | ((b[4] as u64) << 32) | ((b[5] as u64) << 40) | ((b[6] as u64) << 48)
        | ((b[7] as u64) << 56)
}

/// Decoding the four little-endian bytes of a 32-bit value gives it back.
pub proof fn lemma_u32_le_roundtrip(x: u32)
    ensures
        u32_from_le(u32_le_bytes(x)) == x,
{
    assert(((x & 0xff) as u8 as u32) | ((((x >> 8) & 0xff) as u8 as u32) << 8) | ((((x >> 16)
        & 0xff) as u8 as u32) << 16) | ((((x >> 24) & 0xff) as u8 as u32) << 24) == x)
        by (bit_vector);
}

/// Decoding the eight little-endian bytes of a 64-bit value gives it back.
pub proof fn lemma_u64_le_roundtrip(x: u64)
    ensures
        u64_from_le(u64_le_bytes(x)) == x,
{
    assert(((x & 0xff) as u8 as u64) | ((((x >> 8) & 0xff) as u8 as u64) << 8) | ((((x >> 16)
        & 0xff) as u8 as u64) << 16) | ((((x >> 24) & 0xff) as u8 as u64) << 24) | ((((x >> 32)
        & 0xff) as u8 as u64) << 32) | ((((x >> 40) & 0xff) as u8 as u64) << 40) | ((((x >> 48)
        & 0xff) as u8 as u64) << 48) | ((((x >> 56) & 0xff) as u8 as u64) << 56) == x)
        by (bit_vector);
}

/// Appends the two little-endian bytes of `x` to `out`.
pub fn push_u16_le(out: &mut Vec<u8>, x: u16)
    ensures
        final(out)@ == old(out)@ + u16_le_bytes(x),
{
    out.push((x & 0xff) as u8);
    out.push(((x >> 8) & 0xff) as u8);
    proof {
        assert(out@ =~= old(out)@ + u16_le_bytes(x));
    }
}

/// Appends the four little-endian bytes of `x` to `out`.
pub fn push_u32_le(out: &mut Vec<u8>, x: u32)
    ensures
        final(out)@ == old(out)@ + u32_le_bytes(x),
{
    out.push((x & 0xff) as u8);
    out.push(((x >> 8) & 0xff) as u8);
    out.push(((x >> 16) & 0xff) as u8);
    out.push(((x >> 24) & 0xff) as u8);
    proof {
        assert(out@ =~= old(out)@ + u32_le_bytes(x));
    }
}

/// Appends the eight little-endian bytes of `x` to `out`.
pub fn push_u64_le(out: &mut Vec<u8>, x: u64)
    ensures
        final(out)@ == old(out)@ + u64_le_bytes(x),
{
    out.push((x & 0xff) as u8);
    out.push(((x >> 8) & 0xff) as u8);
    out.push(((x >> 16) & 0xff) as u8);
    out.push(((x >> 24) & 0xff) as u8);
    out.push(((x >> 32) & 0xff) as u8);
    out.push(((x >> 40) & 0xff) as u8);
    out.push(((x >> 48) & 0xff) as u8);
    out.push(((x >> 56) & 0xff) as u8);
    proof {
        assert(out@ =~= old(out)@ + u64_le_bytes(x));
    }
}

/// Reads the 32-bit value held by `b[at .. at + 4]`, least significant first.
pub fn read_u32_le(b: &Vec<u8>, at: usize) -> (x: u32)
    requires
        at + 4 <= b@.len(),
    ensures
        x == u32_from_le(b@.subrange(at as int, at + 4)),
{
    let n: usize = b.len();
    assert(at + 4 <= n);
    let x0 = b[at] as u32;
    let x1 = (b[at + 1] as u32) << 8;
    let x2 = (b[at + 2] as u32) << 16;
    let x3 = (b[at + 3] as u32) << 24;
    x0 | x1 | x2 | x3
}

/// Reads the 64-bit value held by `b[at .. at + 8]`, least significant first.
pub fn read_u64_le(b: &Vec<u8>, at: usize) -> (x: u64)
    requires
        at + 8 <= b@.len(),
    ensures
        x == u64_from_le(b@.subrange(at as int, at + 8)),
{
    let n: usize = b.len();
    assert(at + 8 <= n);
    let x0 = b[at] as u64;
    let x1 = (b[at + 1] as u64) << 8;
    let x2 = (b[at + 2] as u64) << 16;
    let x3 = (b[at + 3] as u64) << 24;
    let x4 = (b[at + 4] as u64) << 32;
    let x5 = (b[at + 5] as u64) << 40;
    let x6 = (b[at + 6] as u64) << 48;
    let x7 = (b[at + 7] as u64) << 56;
    x0 | x1 | x2 | x3 | x4 | x5 | x6 | x7
}

} // verus!
