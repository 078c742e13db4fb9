//! Reading fixed-size integers from the start of a byte slice.
use vstd::prelude::*;
use crate::bitstream::endian::{le16, be16, le32, be32, le64, be64};

verus! {

/// Reads an unsigned byte at the start of a buffer.
pub fn get_u8(buf: &[u8]) -> (r: u8)
    requires
        buf@.len() > 0,
    ensures
        r == buf@[0],
{
    buf[0]
}

/// Reads a signed byte at the start of a buffer.
pub fn get_i8(buf: &[u8]) -> (r: i8)
    requires
        buf@.len() > 0,
    ensures
        r == buf@[0] as i8,
{
    buf[0] as i8
}

/// Reads 2 bytes in little-endian order at the start of a buffer.
pub fn get_u16l(buf: &[u8]) -> (r: u16)
    requires
        buf@.len() > 1,
    ensures
        r == le16(buf@),
{
    let b0 = buf[0] as u16;
    let b1 = buf[1] as u16;
    let r = b0 | (b1 << 8u16);
    assert(r == b0 + 0x100 * b1) by (bit_vector)
        requires
            r == b0 | (b1 << 8u16),
            b0 < 256,
            b1 < 256,
    ;
    r
}

/// Reads 2 bytes in big-endian order at the start of a buffer.
pub fn get_u16b(buf: &[u8]) -> (r: u16)
    requires
        buf@.len() > 1,
    ensures
        r == be16(buf@),
{
    let b0 = buf[0] as u16;
    let b1 = buf[1] as u16;
    let r = (b0 << 8u16) | b1;
    assert(r == 0x100 * b0 + b1) by (bit_vector)
        requires
            r == (b0 << 8u16) | b1,
            b0 < 256,
            b1 < 256,
    ;
    r
}

/// Reads 4 bytes in little-endian order at the start of a buffer.
pub fn get_u32l(buf: &[u8]) -> (r: u32)
    requires
        buf@.len() > 3,
    ensures
        r == le32(buf@),
{
    let b0 = buf[0] as u32;
    let b1 = buf[1] as u32;
    let b2 = buf[2] as u32;
    let b3 = buf[3] as u32;
    let r = b0 | (b1 << 8u32) | (b2 << 16u32) | (b3 << 24u32);
    assert(r == b0 + 0x100 * b1 + 0x1_0000 * b2 + 0x100_0000 * b3) by (bit_vector)
        requires
            r == b0 | (b1 << 8u32) | (b2 << 16u32) | (b3 << 24u32),
            b0 < 256,
            b1 < 256,
            b2 < 256,
            b3 < 256,
    ;
    r
}

/// Reads 4 bytes in big-endian order at the start of a buffer.
pub fn get_u32b(buf: &[u8]) -> (r: u32)
    requires
        buf@.len() > 3,
    ensures
        r == be32(buf@),
{
    let b0 = buf[0] as u32;
    let b1 = buf[1] as u32;
    let b2 = buf[2] as u32;
    let b3 = buf[3] as u32;
    let r = (b0 << 24u32) | (b1 << 16u32) | (b2 << 8u32) | b3;
    assert(r == 0x100_0000 * b0 + 0x1_0000 * b1 + 0x100 * b2 + b3) by (bit_vector)
        requires
            r == (b0 << 24u32) | (b1 << 16u32) | (b2 << 8u32) | b3,
            b0 < 256,
            b1 < 256,
            b2 < 256,
            b3 < 256,
    ;
    r
}

/// Reads 8 bytes in little-endian order at the start of a buffer.
pub fn get_u64l(buf: &[u8]) -> (r: u64)
    requires
        buf@.len() > 7,
    ensures
        r == le64(buf@),
{
    let b0 = buf[0] as u64;
    let b1 = buf[1] as u64;
    let b2 = buf[2] as u64;
    let b3 = buf[3] as u64;
    let b4 = buf[4] as u64;
    let b5 = buf[5] as u64;
    let b6 = buf[6] as u64;
    let b7 = buf[7] as u64;
    let r = b0 | (b1 << 8u64) | (b2 << 16u64) | (b3 << 24u64) | (b4 << 32u64) | (b5 << 40u64)
        | (b6 << 48u64) | (b7 << 56u64);
    assert(r == b0 + 0x100 * b1 + 0x1_0000 * b2 + 0x100_0000 * b3 + 0x1_0000_0000 * b4
        + 0x100_0000_0000 * b5 + 0x1_0000_0000_0000 * b6 + 0x100_0000_0000_0000 * b7)
        by (bit_vector)
        requires
            r == b0 | (b1 << 8u64) | (b2 << 16u64) | (b3 << 24u64) | (b4 << 32u64) | (b5
                << 40u64) | (b6 << 48u64) | (b7 << 56u64),
            b0 < 256,
            b1 < 256,
            b2 < 256,
            b3 < 256,
            b4 < 256,
            b5 < 256,
            b6 < 256,
            b7 < 256,
    ;
    r
}

/// Reads 8 bytes in big-endian order at the start of a buffer.
pub fn get_u64b(buf: &[u8]) -> (r: u64)
    requires
        buf@.len() > 7,
    ensures
        r == be64(buf@),
{
    let b0 = buf[0] as u64;
    let b1 = buf[1] as u64;
    let b2 = buf[2] as u64;
    let b3 = buf[3] as u64;
    let b4 = buf[4] as u64;
    let b5 = buf[5] as u64;
    let b6 = buf[6] as u64;
    let b7 = buf[7] as u64;
    let r = (b0 << 56u64) | (b1 << 48u64) | (b2 << 40u64) | (b3 << 32u64) | (b4 << 24u64) | (b5
        << 16u64) | (b6 << 8u64) | b7;
    assert(r == 0x100_0000_0000_0000 * b0 + 0x1_0000_0000_0000 * b1 + 0x100_0000_0000 * b2
        + 0x1_0000_0000 * b3 + 0x100_0000 * b4 + 0x1_0000 * b5 + 0x100 * b6 + b7)
        by (bit_vector)
        requires
            r == (b0 << 56u64) | (b1 << 48u64) | (b2 << 40u64) | (b3 << 32u64) | (b4 << 24u64)
                | (b5 << 16u64) | (b6 << 8u64) | b7,
            b0 < 256,
            b1 < 256,
            b2 < 256,
            b3 < 256,
            b4 < 256,
            b5 < 256,
            b6 < 256,
            b7 < 256,
    ;
    r
}

/// Reads a little-endian `i16` (two's complement) at the start of a buffer.
pub fn get_i16l(buf: &[u8]) -> (r: i16)
    requires
        buf@.len() > 1,
    ensures
        r == le16(buf@) as i16,
{
    get_u16l(buf) as i16
}

/// Reads a big-endian `i16` (two's complement) at the start of a buffer.
pub fn get_i16b(buf: &[u8]) -> (r: i16)
    requires
        buf@.len() > 1,
    ensures
        r == be16(buf@) as i16,
{
    get_u16b(buf) as i16
}

/// Reads a little-endian `i32` (two's complement) at the start of a buffer.
pub fn get_i32l(buf: &[u8]) -> (r: i32)
    requires
        buf@.len() > 3,
    ensures
        r == le32(buf@) as i32,
{
    get_u32l(buf) as i32
}

/// Reads a big-endian `i32` (two's complement) at the start of a buffer.
pub fn get_i32b(buf: &[u8]) -> (r: i32)
    requires
        buf@.len() > 3,
    ensures
        r == be32(buf@) as i32,
{
    get_u32b(buf) as i32
}

/// Reads a little-endian `i64` (two's complement) at the start of a buffer.
pub fn get_i64l(buf: &[u8]) -> (r: i64)
    requires
        buf@.len() > 7,
    ensures
        r == le64(buf@) as i64,
{
    get_u64l(buf) as i64
}

/// Reads a big-endian `i64` (two's complement) at the start of a buffer.
pub fn get_i64b(buf: &[u8]) -> (r: i64)
    requires
        buf@.len() > 7,
    ensures
        r == be64(buf@) as i64,
{
    get_u64b(buf) as i64
}

} // verus!
