//! Fixed-width little-endian encoding of the integers that records hold.
//!
//! A 64-bit unsigned integer is eight bytes, least significant first. A 64-bit
//! signed integer is encoded as the unsigned integer with the same bits
//! (two's complement).

use vstd::prelude::*;

verus! {

/// Width in bytes of an encoded 64-bit integer.
pub const WORD_BYTES: usize = 8;

/// The eight little-endian bytes of `x`.
pub open spec fn u64_le(x: u64) -> Seq<u8> {
    seq![
        (x % 0x100) as u8,
        (x / 0x100 % 0x100) as u8,
        (x / 0x1_0000 % 0x100) as u8,
        (x / 0x100_0000 % 0x100) as u8,
        (x / 0x1_0000_0000 % 0x100) as u8,
        (x / 0x100_0000_0000 % 0x100) as u8,
        (x / 0x1_0000_0000_0000 % 0x100) as u8,
        (x / 0x100_0000_0000_0000 % 0x100) as u8,
    ]
}

/// The number whose little-endian bytes are the first eight of `b`.
pub open spec fn le_u64(b: Seq<u8>) -> int
    recommends
        b.len() >= 8,
{
    b[0] as int + 0x100 * (b[1] as int) + 0x1_0000 * (b[2] as int) + 0x100_0000 * (b[3] as int)
        + 0x1_0000_0000 * (b[4] as int) + 0x100_0000_0000 * (b[5] as int) + 0x1_0000_0000_0000
        * (b[6] as int) + 0x100_0000_0000_0000 * (b[7] as int)
}

/// The unsigned integer with the same 64 bits as `x`.
pub open spec fn i64_bits(x: i64) -> u64 {
    if x >= 0 {
        x as u64
    } else {
        (x + 0x1_0000_0000_0000_0000) as u64
    }
}

/// The signed integer with the same 64 bits as `u`.
pub open spec fn bits_i64(u: int) -> int {
    if u < 0x8000_0000_0000_0000 {
        u
    } else {
        u - 0x1_0000_0000_0000_0000
    }
}

/// The eight little-endian bytes of `x` in two's complement.
pub open spec fn i64_le(x: i64) -> Seq<u8> {
    u64_le(i64_bits(x))
}

/// The signed number whose little-endian two's-complement bytes are the first
/// eight of `b`.
pub open spec fn le_i64(b: Seq<u8>) -> int
    recommends
        b.len() >= 8,
{
    bits_i64(le_u64(b))
}

/// Eight bytes always denote a number that fits in 64 bits.
pub proof fn lemma_le_u64_bounds(b: Seq<u8>)
    requires
        b.len() >= 8,
    ensures
        0 <= le_u64(b) <= u64::MAX,
        i64::MIN <= le_i64(b) <= i64::MAX,
{
}

/// Decoding the encoding of `x` gives `x` back.
pub proof fn lemma_u64_round_trip(x: u64)
    ensures
        u64_le(x).len() == 8,
        le_u64(u64_le(x)) == x,
{
    assert(x == x % 0x100 + 0x100 * (x / 0x100 % 0x100) + 0x1_0000 * (x / 0x1_0000 % 0x100)
        + 0x100_0000 * (x / 0x100_0000 % 0x100) + 0x1_0000_0000 * (x / 0x1_0000_0000 % 0x100)
        + 0x100_0000_0000 * (x / 0x100_0000_0000 % 0x100) + 0x1_0000_0000_0000 * (x
        / 0x1_0000_0000_0000 % 0x100) + 0x100_0000_0000_0000 * (x / 0x100_0000_0000_0000 % 0x100))
        by (bit_vector);
}

/// Encoding the number that eight bytes denote gives those bytes back.
pub proof fn lemma_u64_bytes_round_trip(b: Seq<u8>)
    requires
        b.len() == 8,
    ensures
        u64_le(le_u64(b) as u64) == b,
{
    lemma_le_u64_bounds(b);
    let r7 = b[7] as int;
    let r6 = b[6] as int + 0x100 * r7;
    let r5 = b[5] as int + 0x100 * r6;
    let r4 = b[4] as int + 0x100 * r5;
    let r3 = b[3] as int + 0x100 * r4;
    let r2 = b[2] as int + 0x100 * r3;
    let r1 = b[1] as int + 0x100 * r2;
    let v = le_u64(b);
    assert(v == b[0] as int + 0x100 * r1);
    assert(v / 0x100 == r1);
    assert(v / 0x1_0000 == r2);
    assert(v / 0x100_0000 == r3);
    assert(v / 0x1_0000_0000 == r4);
    assert(v / 0x100_0000_0000 == r5);
    assert(v / 0x1_0000_0000_0000 == r6);
    assert(v / 0x100_0000_0000_0000 == r7);
    assert(u64_le(v as u64) =~= b);
}

/// Decoding the encoding of a signed `x` gives `x` back.
pub proof fn lemma_i64_round_trip(x: i64)
    ensures
        i64_le(x).len() == 8,
        le_i64(i64_le(x)) == x,
{
    lemma_u64_round_trip(i64_bits(x));
}

/// Encoding the signed number that eight bytes denote gives those bytes back.
pub proof fn lemma_i64_bytes_round_trip(b: Seq<u8>)
    requires
        b.len() == 8,
    ensures
        i64_le(le_i64(b) as i64) == b,
{
    lemma_le_u64_bounds(b);
    lemma_u64_bytes_round_trip(b);
    assert(i64_bits(le_i64(b) as i64) == le_u64(b));
}

/// Appends the eight little-endian bytes of `x` to `out`.
pub fn put_u64(out: &mut Vec<u8>, x: u64)
    ensures
        final(out)@ == old(out)@ + u64_le(x),
{
    out.push((x % 0x100) as u8);
    out.push((x / 0x100 % 0x100) as u8);
    out.push((x / 0x1_0000 % 0x100) as u8);
    out.push((x / 0x100_0000 % 0x100) as u8);
    out.push((x / 0x1_0000_0000 % 0x100) as u8);
    out.push((x / 0x100_0000_0000 % 0x100) as u8);
    out.push((x / 0x1_0000_0000_0000 % 0x100) as u8);
    out.push((x / 0x100_0000_0000_0000 % 0x100) as u8);
    assert(out@ =~= old(out)@ + u64_le(x));
}

/// Appends the eight little-endian two's-complement bytes of `x` to `out`.
pub fn put_i64(out: &mut Vec<u8>, x: i64)
    ensures
        final(out)@ == old(out)@ + i64_le(x),
{
    let bits: u64 = if x >= 0 {
        x as u64
    } else {
        ((x + i64::MAX) + 1) as u64 + 0x8000_0000_0000_0000u64
    };
    put_u64(out, bits);
}

/// Reads the unsigned integer encoded in the eight bytes of `data` from `at`.
pub fn get_u64(data: &[u8], at: usize) -> (x: u64)
    requires
        at + 8 <= data@.len(),
    ensures
        x == le_u64(data@.subrange(at as int, at + 8)),
{
    let ghost b = data@.subrange(at as int, at + 8);
    proof {
        lemma_le_u64_bounds(b);
        assert(forall|i: int| 0 <= i < 8 ==> b[i] == data@[at + i]);
    }
    let b0: u64 = data[at] as u64;
    let b1: u64 = data[at + 1] as u64;
    let b2: u64 = data[at + 2] as u64;
    let b3: u64 = data[at + 3] as u64;
    let b4: u64 = data[at + 4] as u64;
    let b5: u64 = data[at + 5] as u64;
    let b6: u64 = data[at + 6] as u64;
    let b7: u64 = data[at + 7] as u64;
    b0 + 0x100 * b1 + 0x1_0000 * b2 + 0x100_0000 * b3 + 0x1_0000_0000 * b4 + 0x100_0000_0000 * b5
        + 0x1_0000_0000_0000 * b6 + 0x100_0000_0000_0000 * b7
}

/// Reads the signed integer encoded in the eight bytes of `data` from `at`.
pub fn get_i64(data: &[u8], at: usize) -> (x: i64)
    requires
        at + 8 <= data@.len(),
    ensures
        x == le_i64(data@.subrange(at as int, at + 8)),
{
    let bits: u64 = get_u64(data, at);
    if bits < 0x8000_0000_0000_0000u64 {
        bits as i64
    } else {
        ((bits - 0x8000_0000_0000_0000u64) as i64 - i64::MAX) - 1
    }
}

} // verus!
