//! Integer values of little- and big-endian byte groups, as mathematical
//! integers, and the byte groups that encode a given integer.
use vstd::prelude::*;

verus! {

/// Value of the two bytes `b[0..2]` read least significant byte first.
pub open spec fn le16(b: Seq<u8>) -> int {
    b[0] + 0x100 * b[1]
}

/// Value of the two bytes `b[0..2]` read most significant byte first.
pub open spec fn be16(b: Seq<u8>) -> int {
    0x100 * b[0] + b[1]
}

/// Value of the four bytes `b[0..4]` read least significant byte first.
pub open spec fn le32(b: Seq<u8>) -> int {
    b[0] + 0x100 * b[1] + 0x1_0000 * b[2] + 0x100_0000 * b[3]
}

/// Value of the four bytes `b[0..4]` read most significant byte first.
pub open spec fn be32(b: Seq<u8>) -> int {
    0x100_0000 * b[0] + 0x1_0000 * b[1] + 0x100 * b[2] + b[3]
}

/// Value of the eight bytes `b[0..8]` read least significant byte first.
pub open spec fn le64(b: Seq<u8>) -> int {
    b[0] + 0x100 * b[1] + 0x1_0000 * b[2] + 0x100_0000 * b[3] + 0x1_0000_0000 * b[4]
        + 0x100_0000_0000 * b[5] + 0x1_0000_0000_0000 * b[6] + 0x100_0000_0000_0000 * b[7]
}

/// Value of the eight bytes `b[0..8]` read most significant byte first.
pub open spec fn be64(b: Seq<u8>) -> int {
    0x100_0000_0000_0000 * b[0] + 0x1_0000_0000_0000 * b[1] + 0x100_0000_0000 * b[2]
        + 0x1_0000_0000 * b[3] + 0x100_0000 * b[4] + 0x1_0000 * b[5] + 0x100 * b[6] + b[7]
}

/// `256` to the power `i`, for the byte positions `0 <= i < 8`.
pub open spec fn radix(i: int) -> int {
    if i <= 0 {
        1
    } else if i == 1 {
        0x100
    } else if i == 2 {
        0x1_0000
    } else if i == 3 {
        0x100_0000
    } else if i == 4 {
        0x1_0000_0000
    } else if i == 5 {
        0x100_0000_0000
    } else if i == 6 {
        0x1_0000_0000_0000
    } else {
        0x100_0000_0000_0000
    }
}

/// Byte `i` (counting from the least significant one) of a natural number.
pub open spec fn byte_of(x: int, i: int) -> u8 {
    ((x / radix(i)) % 256) as u8
}

/// Little-endian encoding of `x` on `n` bytes (`n <= 8`).
pub open spec fn le_bytes(x: int, n: nat) -> Seq<u8> {
    Seq::new(n, |i: int| byte_of(x, i))
}

/// Big-endian encoding of `x` on `n` bytes (`n <= 8`).
pub open spec fn be_bytes(x: int, n: nat) -> Seq<u8> {
    Seq::new(n, |i: int| byte_of(x, n - 1 - i))
}


/// Reading back 2 little-endian bytes that encode `x` gives `x`, whatever
/// follows them.
pub proof fn lemma_le16_encode_decode(x: u16, rest: Seq<u8>)
    ensures
        le16(le_bytes(x as int, 2) + rest) == x,
{
    let s = le_bytes(x as int, 2) + rest;
    assert(x == 0x1 * ((x / 0x1) % 0x100) + 0x100 * ((x / 0x100) % 0x100)) by (bit_vector);
}

/// Encoding the value of 2 little-endian bytes gives back those bytes.
pub proof fn lemma_le16_decode_encode(b: Seq<u8>)
    requires
        b.len() >= 2,
    ensures
        le_bytes(le16(b), 2) == b.take(2),
{
    let b0 = b[0] as u64;
    let b1 = b[1] as u64;
    assert(((0x1 * b0 + 0x100 * b1) / 0x1) % 0x100 == b0 && ((0x1 * b0 + 0x100 * b1) / 0x100) % 0x100 == b1) by (bit_vector)
        requires
            b0 < 0x100,
            b1 < 0x100,
    ;
    assert(le_bytes(le16(b), 2) =~= b.take(2));
}

/// Reading back 2 big-endian bytes that encode `x` gives `x`, whatever
/// follows them.
pub proof fn lemma_be16_encode_decode(x: u16, rest: Seq<u8>)
    ensures
        be16(be_bytes(x as int, 2) + rest) == x,
{
    let s = be_bytes(x as int, 2) + rest;
    assert(x == 0x1 * ((x / 0x1) % 0x100) + 0x100 * ((x / 0x100) % 0x100)) by (bit_vector);
}

/// Encoding the value of 2 big-endian bytes gives back those bytes.
pub proof fn lemma_be16_decode_encode(b: Seq<u8>)
    requires
        b.len() >= 2,
    ensures
        be_bytes(be16(b), 2) == b.take(2),
{
    let b0 = b[0] as u64;
    let b1 = b[1] as u64;
    assert(((0x100 * b0 + 0x1 * b1) / 0x100) % 0x100 == b0 && ((0x100 * b0 + 0x1 * b1) / 0x1) % 0x100 == b1) by (bit_vector)
        requires
            b0 < 0x100,
            b1 < 0x100,
    ;
    assert(be_bytes(be16(b), 2) =~= b.take(2));
}

/// Reading back 4 little-endian bytes that encode `x` gives `x`, whatever
/// follows them.
pub proof fn lemma_le32_encode_decode(x: u32, rest: Seq<u8>)
    ensures
        le32(le_bytes(x as int, 4) + rest) == x,
{
    let s = le_bytes(x as int, 4) + rest;
    assert(x == 0x1 * ((x / 0x1) % 0x100) + 0x100 * ((x / 0x100) % 0x100) + 0x10000 * ((x / 0x10000) % 0x100) + 0x1000000 * ((x / 0x1000000) % 0x100)) by (bit_vector);
}

/// Encoding the value of 4 little-endian bytes gives back those bytes.
pub proof fn lemma_le32_decode_encode(b: Seq<u8>)
    requires
        b.len() >= 4,
    ensures
        le_bytes(le32(b), 4) == b.take(4),
{
    let b0 = b[0] as u64;
    let b1 = b[1] as u64;
    let b2 = b[2] as u64;
    let b3 = b[3] as u64;
    assert(((0x1 * b0 + 0x100 * b1 + 0x10000 * b2 + 0x1000000 * b3) / 0x1) % 0x100 == b0 && ((0x1 * b0 + 0x100 * b1 + 0x10000 * b2 + 0x1000000 * b3) / 0x100) % 0x100 == b1 && ((0x1 * b0 + 0x100 * b1 + 0x10000 * b2 + 0x1000000 * b3) / 0x10000) % 0x100 == b2 && ((0x1 * b0 + 0x100 * b1 + 0x10000 * b2 + 0x1000000 * b3) / 0x1000000) % 0x100 == b3) by (bit_vector)
        requires
            b0 < 0x100,
            b1 < 0x100,
            b2 < 0x100,
            b3 < 0x100,
    ;
    assert(le_bytes(le32(b), 4) =~= b.take(4));
}

/// Reading back 4 big-endian bytes that encode `x` gives `x`, whatever
/// follows them.
pub proof fn lemma_be32_encode_decode(x: u32, rest: Seq<u8>)
    ensures
        be32(be_bytes(x as int, 4) + rest) == x,
{
    let s = be_bytes(x as int, 4) + rest;
    assert(x == 0x1 * ((x / 0x1) % 0x100) + 0x100 * ((x / 0x100) % 0x100) + 0x10000 * ((x / 0x10000) % 0x100) + 0x1000000 * ((x / 0x1000000) % 0x100)) by (bit_vector);
}

/// Encoding the value of 4 big-endian bytes gives back those bytes.
pub proof fn lemma_be32_decode_encode(b: Seq<u8>)
    requires
        b.len() >= 4,
    ensures
        be_bytes(be32(b), 4) == b.take(4),
{
    let b0 = b[0] as u64;
    let b1 = b[1] as u64;
    let b2 = b[2] as u64;
    let b3 = b[3] as u64;
    assert(((0x1000000 * b0 + 0x10000 * b1 + 0x100 * b2 + 0x1 * b3) / 0x1000000) % 0x100 == b0 && ((0x1000000 * b0 + 0x10000 * b1 + 0x100 * b2 + 0x1 * b3) / 0x10000) % 0x100 == b1 && ((0x1000000 * b0 + 0x10000 * b1 + 0x100 * b2 + 0x1 * b3) / 0x100) % 0x100 == b2 && ((0x1000000 * b0 + 0x10000 * b1 + 0x100 * b2 + 0x1 * b3) / 0x1) % 0x100 == b3) by (bit_vector)
        requires
            b0 < 0x100,
            b1 < 0x100,
            b2 < 0x100,
            b3 < 0x100,
    ;
    assert(be_bytes(be32(b), 4) =~= b.take(4));
}

/// Reading back 8 little-endian bytes that encode `x` gives `x`, whatever
/// follows them.
pub proof fn lemma_le64_encode_decode(x: u64, rest: Seq<u8>)
    ensures
        le64(le_bytes(x as int, 8) + rest) == x,
{
    let s = le_bytes(x as int, 8) + rest;
    assert(x == 0x1 * ((x / 0x1) % 0x100) + 0x100 * ((x / 0x100) % 0x100) + 0x10000 * ((x / 0x10000) % 0x100) + 0x1000000 * ((x / 0x1000000) % 0x100) + 0x100000000 * ((x / 0x100000000) % 0x100) + 0x10000000000 * ((x / 0x10000000000) % 0x100) + 0x1000000000000 * ((x / 0x1000000000000) % 0x100) + 0x100000000000000 * ((x / 0x100000000000000) % 0x100)) by (bit_vector);
}

/// Encoding the value of 8 little-endian bytes gives back those bytes.
pub proof fn lemma_le64_decode_encode(b: Seq<u8>)
    requires
        b.len() >= 8,
    ensures
        le_bytes(le64(b), 8) == b.take(8),
{
    let b0 = b[0] as u64;
    let b1 = b[1] as u64;
    let b2 = b[2] as u64;
    let b3 = b[3] as u64;
    let b4 = b[4] as u64;
    let b5 = b[5] as u64;
    let b6 = b[6] as u64;
    let b7 = b[7] as u64;
    assert(((0x1 * b0 + 0x100 * b1 + 0x10000 * b2 + 0x1000000 * b3 + 0x100000000 * b4 + 0x10000000000 * b5 + 0x1000000000000 * b6 + 0x100000000000000 * b7) / 0x1) % 0x100 == b0 && ((0x1 * b0 + 0x100 * b1 + 0x10000 * b2 + 0x1000000 * b3 + 0x100000000 * b4 + 0x10000000000 * b5 + 0x1000000000000 * b6 + 0x100000000000000 * b7) / 0x100) % 0x100 == b1 && ((0x1 * b0 + 0x100 * b1 + 0x10000 * b2 + 0x1000000 * b3 + 0x100000000 * b4 + 0x10000000000 * b5 + 0x1000000000000 * b6 + 0x100000000000000 * b7) / 0x10000) % 0x100 == b2 && ((0x1 * b0 + 0x100 * b1 + 0x10000 * b2 + 0x1000000 * b3 + 0x100000000 * b4 + 0x10000000000 * b5 + 0x1000000000000 * b6 + 0x100000000000000 * b7) / 0x1000000) % 0x100 == b3 && ((0x1 * b0 + 0x100 * b1 + 0x10000 * b2 + 0x1000000 * b3 + 0x100000000 * b4 + 0x10000000000 * b5 + 0x1000000000000 * b6 + 0x100000000000000 * b7) / 0x100000000) % 0x100 == b4 && ((0x1 * b0 + 0x100 * b1 + 0x10000 * b2 + 0x1000000 * b3 + 0x100000000 * b4 + 0x10000000000 * b5 + 0x1000000000000 * b6 + 0x100000000000000 * b7) / 0x10000000000) % 0x100 == b5 && ((0x1 * b0 + 0x100 * b1 + 0x10000 * b2 + 0x1000000 * b3 + 0x100000000 * b4 + 0x10000000000 * b5 + 0x1000000000000 * b6 + 0x100000000000000 * b7) / 0x1000000000000) % 0x100 == b6 && ((0x1 * b0 + 0x100 * b1 + 0x10000 * b2 + 0x1000000 * b3 + 0x100000000 * b4 + 0x10000000000 * b5 + 0x1000000000000 * b6 + 0x100000000000000 * b7) / 0x100000000000000) % 0x100 == b7) by (bit_vector)
        requires
            b0 < 0x100,
            b1 < 0x100,
            b2 < 0x100,
            b3 < 0x100,
            b4 < 0x100,
            b5 < 0x100,
            b6 < 0x100,
            b7 < 0x100,
    ;
    assert(le_bytes(le64(b), 8) =~= b.take(8));
}

/// Reading back 8 big-endian bytes that encode `x` gives `x`, whatever
/// follows them.
pub proof fn lemma_be64_encode_decode(x: u64, rest: Seq<u8>)
    ensures
        be64(be_bytes(x as int, 8) + rest) == x,
{
    let s = be_bytes(x as int, 8) + rest;
    assert(x == 0x1 * ((x / 0x1) % 0x100) + 0x100 * ((x / 0x100) % 0x100) + 0x10000 * ((x / 0x10000) % 0x100) + 0x1000000 * ((x / 0x1000000) % 0x100) + 0x100000000 * ((x / 0x100000000) % 0x100) + 0x10000000000 * ((x / 0x10000000000) % 0x100) + 0x1000000000000 * ((x / 0x1000000000000) % 0x100) + 0x100000000000000 * ((x / 0x100000000000000) % 0x100)) by (bit_vector);
}

/// Encoding the value of 8 big-endian bytes gives back those bytes.
pub proof fn lemma_be64_decode_encode(b: Seq<u8>)
    requires
        b.len() >= 8,
    ensures
        be_bytes(be64(b), 8) == b.take(8),
{
    let b0 = b[0] as u64;
    let b1 = b[1] as u64;
    let b2 = b[2] as u64;
    let b3 = b[3] as u64;
    let b4 = b[4] as u64;
    let b5 = b[5] as u64;
    let b6 = b[6] as u64;
    let b7 = b[7] as u64;
    assert(((0x100000000000000 * b0 + 0x1000000000000 * b1 + 0x10000000000 * b2 + 0x100000000 * b3 + 0x1000000 * b4 + 0x10000 * b5 + 0x100 * b6 + 0x1 * b7) / 0x100000000000000) % 0x100 == b0 && ((0x100000000000000 * b0 + 0x1000000000000 * b1 + 0x10000000000 * b2 + 0x100000000 * b3 + 0x1000000 * b4 + 0x10000 * b5 + 0x100 * b6 + 0x1 * b7) / 0x1000000000000) % 0x100 == b1 && ((0x100000000000000 * b0 + 0x1000000000000 * b1 + 0x10000000000 * b2 + 0x100000000 * b3 + 0x1000000 * b4 + 0x10000 * b5 + 0x100 * b6 + 0x1 * b7) / 0x10000000000) % 0x100 == b2 && ((0x100000000000000 * b0 + 0x1000000000000 * b1 + 0x10000000000 * b2 + 0x100000000 * b3 + 0x1000000 * b4 + 0x10000 * b5 + 0x100 * b6 + 0x1 * b7) / 0x100000000) % 0x100 == b3 && ((0x100000000000000 * b0 + 0x1000000000000 * b1 + 0x10000000000 * b2 + 0x100000000 * b3 + 0x1000000 * b4 + 0x10000 * b5 + 0x100 * b6 + 0x1 * b7) / 0x1000000) % 0x100 == b4 && ((0x100000000000000 * b0 + 0x1000000000000 * b1 + 0x10000000000 * b2 + 0x100000000 * b3 + 0x1000000 * b4 + 0x10000 * b5 + 0x100 * b6 + 0x1 * b7) / 0x10000) % 0x100 == b5 && ((0x100000000000000 * b0 + 0x1000000000000 * b1 + 0x10000000000 * b2 + 0x100000000 * b3 + 0x1000000 * b4 + 0x10000 * b5 + 0x100 * b6 + 0x1 * b7) / 0x100) % 0x100 == b6 && ((0x100000000000000 * b0 + 0x1000000000000 * b1 + 0x10000000000 * b2 + 0x100000000 * b3 + 0x1000000 * b4 + 0x10000 * b5 + 0x100 * b6 + 0x1 * b7) / 0x1) % 0x100 == b7) by (bit_vector)
        requires
            b0 < 0x100,
            b1 < 0x100,
            b2 < 0x100,
            b3 < 0x100,
            b4 < 0x100,
            b5 < 0x100,
            b6 < 0x100,
            b7 < 0x100,
    ;
    assert(be_bytes(be64(b), 8) =~= b.take(8));
}

/// A signed 16-bit value written in either byte order is read back.
pub proof fn lemma_i16_roundtrip(n: i16, rest: Seq<u8>)
    ensures
        le16(le_bytes(n as u16 as int, 2) + rest) as i16 == n,
        be16(be_bytes(n as u16 as int, 2) + rest) as i16 == n,
{
    lemma_le16_encode_decode(n as u16, rest);
    lemma_be16_encode_decode(n as u16, rest);
    assert(n as u16 as i16 == n) by (bit_vector);
}

/// A signed 32-bit value written in either byte order is read back.
pub proof fn lemma_i32_roundtrip(n: i32, rest: Seq<u8>)
    ensures
        le32(le_bytes(n as u32 as int, 4) + rest) as i32 == n,
        be32(be_bytes(n as u32 as int, 4) + rest) as i32 == n,
{
    lemma_le32_encode_decode(n as u32, rest);
    lemma_be32_encode_decode(n as u32, rest);
    assert(n as u32 as i32 == n) by (bit_vector);
}

/// A signed 64-bit value written in either byte order is read back.
pub proof fn lemma_i64_roundtrip(n: i64, rest: Seq<u8>)
    ensures
        le64(le_bytes(n as u64 as int, 8) + rest) as i64 == n,
        be64(be_bytes(n as u64 as int, 8) + rest) as i64 == n,
{
    lemma_le64_encode_decode(n as u64, rest);
    lemma_be64_encode_decode(n as u64, rest);
    assert(n as u64 as i64 == n) by (bit_vector);
}

/// A byte written is read back, as unsigned or signed.
pub proof fn lemma_byte_roundtrip(b: Seq<u8>, u: u8, i: i8)
    requires
        b.len() >= 1,
    ensures
        b.update(0, u)[0] == u,
        b.update(0, i as u8)[0] as i8 == i,
{
    assert(i as u8 as i8 == i) by (bit_vector);
}

} // verus!
