//! Writing fixed-size integers at the start of a byte slice.
use vstd::prelude::*;
use crate::bitstream::endian::{le_bytes, be_bytes};

verus! {

/// Writes an unsigned byte at the start of a buffer.
pub fn put_u8(buf: &mut [u8], n: u8)
    requires
        old(buf)@.len() > 0,
    ensures
        final(buf)@ == old(buf)@.update(0, n),
{
    buf[0] = n;
}

/// Converts a `i8` into an unsigned byte and
/// writes it at the start of a buffer.
pub fn put_i8(buf: &mut [u8], n: i8)
    requires
        old(buf)@.len() > 0,
    ensures
        final(buf)@ == old(buf)@.update(0, n as u8),
{
    buf[0] = n as u8;
}

/// Writes 2 unsigned bytes in a little-endian order at the start of a buffer.
pub fn put_u16l(buf: &mut [u8], n: u16)
    requires
        old(buf)@.len() >= 2,
    ensures
        final(buf)@ == le_bytes(n as int, 2) + old(buf)@.skip(2),
{
    let b0 = ((n >> 0u16) & 0xff) as u8;
    let b1 = ((n >> 8u16) & 0xff) as u8;
    assert(b0 == (n / 0x1) % 0x100 && b1 == (n / 0x100) % 0x100) by (bit_vector)
        requires
            b0 == ((n >> 0u16) & 0xff) as u8,
            b1 == ((n >> 8u16) & 0xff) as u8,
    ;
    buf[0] = b0;
    buf[1] = b1;
    assert(buf@ =~= le_bytes(n as int, 2) + old(buf)@.skip(2));
}

/// Writes 2 unsigned bytes in a big-endian order at the start of a buffer.
pub fn put_u16b(buf: &mut [u8], n: u16)
    requires
        old(buf)@.len() >= 2,
    ensures
        final(buf)@ == be_bytes(n as int, 2) + old(buf)@.skip(2),
{
    let b0 = ((n >> 0u16) & 0xff) as u8;
    let b1 = ((n >> 8u16) & 0xff) as u8;
    assert(b0 == (n / 0x1) % 0x100 && b1 == (n / 0x100) % 0x100) by (bit_vector)
        requires
            b0 == ((n >> 0u16) & 0xff) as u8,
            b1 == ((n >> 8u16) & 0xff) as u8,
    ;
    buf[0] = b1;
    buf[1] = b0;
    assert(buf@ =~= be_bytes(n as int, 2) + old(buf)@.skip(2));
}

/// Writes 4 unsigned bytes in a little-endian order at the start of a buffer.
pub fn put_u32l(buf: &mut [u8], n: u32)
    requires
        old(buf)@.len() >= 4,
    ensures
        final(buf)@ == le_bytes(n as int, 4) + old(buf)@.skip(4),
{
    let b0 = ((n >> 0u32) & 0xff) as u8;
    let b1 = ((n >> 8u32) & 0xff) as u8;
    let b2 = ((n >> 16u32) & 0xff) as u8;
    let b3 = ((n >> 24u32) & 0xff) as u8;
    assert(b0 == (n / 0x1) % 0x100 && b1 == (n / 0x100) % 0x100 && b2 == (n / 0x10000) % 0x100 && b3 == (n / 0x1000000) % 0x100) by (bit_vector)
        requires
            b0 == ((n >> 0u32) & 0xff) as u8,
            b1 == ((n >> 8u32) & 0xff) as u8,
            b2 == ((n >> 16u32) & 0xff) as u8,
            b3 == ((n >> 24u32) & 0xff) as u8,
    ;
    buf[0] = b0;
    buf[1] = b1;
    buf[2] = b2;
    buf[3] = b3;
    assert(buf@ =~= le_bytes(n as int, 4) + old(buf)@.skip(4));
}

/// Writes 4 unsigned bytes in a big-endian order at the start of a buffer.
pub fn put_u32b(buf: &mut [u8], n: u32)
    requires
        old(buf)@.len() >= 4,
    ensures
        final(buf)@ == be_bytes(n as int, 4) + old(buf)@.skip(4),
{
    let b0 = ((n >> 0u32) & 0xff) as u8;
    let b1 = ((n >> 8u32) & 0xff) as u8;
    let b2 = ((n >> 16u32) & 0xff) as u8;
    let b3 = ((n >> 24u32) & 0xff) as u8;
    assert(b0 == (n / 0x1) % 0x100 && b1 == (n / 0x100) % 0x100 && b2 == (n / 0x10000) % 0x100 && b3 == (n / 0x1000000) % 0x100) by (bit_vector)
        requires
            b0 == ((n >> 0u32) & 0xff) as u8,
            b1 == ((n >> 8u32) & 0xff) as u8,
            b2 == ((n >> 16u32) & 0xff) as u8,
            b3 == ((n >> 24u32) & 0xff) as u8,
    ;
    buf[0] = b3;
    buf[1] = b2;
    buf[2] = b1;
    buf[3] = b0;
    assert(buf@ =~= be_bytes(n as int, 4) + old(buf)@.skip(4));
}

/// Writes 8 unsigned bytes in a little-endian order at the start of a buffer.
pub fn put_u64l(buf: &mut [u8], n: u64)
    requires
        old(buf)@.len() >= 8,
    ensures
        final(buf)@ == le_bytes(n as int, 8) + old(buf)@.skip(8),
{
    let b0 = ((n >> 0u64) & 0xff) as u8;
    let b1 = ((n >> 8u64) & 0xff) as u8;
    let b2 = ((n >> 16u64) & 0xff) as u8;
    let b3 = ((n >> 24u64) & 0xff) as u8;
    let b4 = ((n >> 32u64) & 0xff) as u8;
    let b5 = ((n >> 40u64) & 0xff) as u8;
    let b6 = ((n >> 48u64) & 0xff) as u8;
    let b7 = ((n >> 56u64) & 0xff) as u8;
    assert(b0 == (n / 0x1) % 0x100 && b1 == (n / 0x100) % 0x100 && b2 == (n / 0x10000) % 0x100 && b3 == (n / 0x1000000) % 0x100 && b4 == (n / 0x100000000) % 0x100 && b5 == (n / 0x10000000000) % 0x100 && b6 == (n / 0x1000000000000) % 0x100 && b7 == (n / 0x100000000000000) % 0x100) by (bit_vector)
        requires
            b0 == ((n >> 0u64) & 0xff) as u8,
            b1 == ((n >> 8u64) & 0xff) as u8,
            b2 == ((n >> 16u64) & 0xff) as u8,
            b3 == ((n >> 24u64) & 0xff) as u8,
            b4 == ((n >> 32u64) & 0xff) as u8,
            b5 == ((n >> 40u64) & 0xff) as u8,
            b6 == ((n >> 48u64) & 0xff) as u8,
            b7 == ((n >> 56u64) & 0xff) as u8,
    ;
    buf[0] = b0;
    buf[1] = b1;
    buf[2] = b2;
    buf[3] = b3;
    buf[4] = b4;
    buf[5] = b5;
    buf[6] = b6;
    buf[7] = b7;
    assert(buf@ =~= le_bytes(n as int, 8) + old(buf)@.skip(8));
}

/// Writes 8 unsigned bytes in a big-endian order at the start of a buffer.
pub fn put_u64b(buf: &mut [u8], n: u64)
    requires
        old(buf)@.len() >= 8,
    ensures
        final(buf)@ == be_bytes(n as int, 8) + old(buf)@.skip(8),
{
    let b0 = ((n >> 0u64) & 0xff) as u8;
    let b1 = ((n >> 8u64) & 0xff) as u8;
    let b2 = ((n >> 16u64) & 0xff) as u8;
    let b3 = ((n >> 24u64) & 0xff) as u8;
    let b4 = ((n >> 32u64) & 0xff) as u8;
    let b5 = ((n >> 40u64) & 0xff) as u8;
    let b6 = ((n >> 48u64) & 0xff) as u8;
    let b7 = ((n >> 56u64) & 0xff) as u8;
    assert(b0 == (n / 0x1) % 0x100 && b1 == (n / 0x100) % 0x100 && b2 == (n / 0x10000) % 0x100 && b3 == (n / 0x1000000) % 0x100 && b4 == (n / 0x100000000) % 0x100 && b5 == (n / 0x10000000000) % 0x100 && b6 == (n / 0x1000000000000) % 0x100 && b7 == (n / 0x100000000000000) % 0x100) by (bit_vector)
        requires
            b0 == ((n >> 0u64) & 0xff) as u8,
            b1 == ((n >> 8u64) & 0xff) as u8,
            b2 == ((n >> 16u64) & 0xff) as u8,
            b3 == ((n >> 24u64) & 0xff) as u8,
            b4 == ((n >> 32u64) & 0xff) as u8,
            b5 == ((n >> 40u64) & 0xff) as u8,
            b6 == ((n >> 48u64) & 0xff) as u8,
            b7 == ((n >> 56u64) & 0xff) as u8,
    ;
    buf[0] = b7;
    buf[1] = b6;
    buf[2] = b5;
    buf[3] = b4;
    buf[4] = b3;
    buf[5] = b2;
    buf[6] = b1;
    buf[7] = b0;
    assert(buf@ =~= be_bytes(n as int, 8) + old(buf)@.skip(8));
}

/// Converts an `i16` into 2 unsigned bytes and
/// writes them in a little-endian order at the start of a buffer.
pub fn put_i16l(buf: &mut [u8], n: i16)
    requires
        old(buf)@.len() >= 2,
    ensures
        final(buf)@ == le_bytes(n as u16 as int, 2) + old(buf)@.skip(2),
{
    put_u16l(buf, n as u16);
}

/// Converts an `i16` into 2 unsigned bytes and
/// writes them in a big-endian order at the start of a buffer.
pub fn put_i16b(buf: &mut [u8], n: i16)
    requires
        old(buf)@.len() >= 2,
    ensures
        final(buf)@ == be_bytes(n as u16 as int, 2) + old(buf)@.skip(2),
{
    put_u16b(buf, n as u16);
}

/// Converts an `i32` into 4 unsigned bytes and
/// writes them in a little-endian order at the start of a buffer.
pub fn put_i32l(buf: &mut [u8], n: i32)
    requires
        old(buf)@.len() >= 4,
    ensures
        final(buf)@ == le_bytes(n as u32 as int, 4) + old(buf)@.skip(4),
{
    put_u32l(buf, n as u32);
}

/// Converts an `i32` into 4 unsigned bytes and
/// writes them in a big-endian order at the start of a buffer.
pub fn put_i32b(buf: &mut [u8], n: i32)
    requires
        old(buf)@.len() >= 4,
    ensures
        final(buf)@ == be_bytes(n as u32 as int, 4) + old(buf)@.skip(4),
{
    put_u32b(buf, n as u32);
}

/// Converts an `i64` into 8 unsigned bytes and
/// writes them in a little-endian order at the start of a buffer.
pub fn put_i64l(buf: &mut [u8], n: i64)
    requires
        old(buf)@.len() >= 8,
    ensures
        final(buf)@ == le_bytes(n as u64 as int, 8) + old(buf)@.skip(8),
{
    put_u64l(buf, n as u64);
}

/// Converts an `i64` into 8 unsigned bytes and
/// writes them in a big-endian order at the start of a buffer.
pub fn put_i64b(buf: &mut [u8], n: i64)
    requires
        old(buf)@.len() >= 8,
    ensures
        final(buf)@ == be_bytes(n as u64 as int, 8) + old(buf)@.skip(8),
{
    put_u64b(buf, n as u64);
}

} // verus!
