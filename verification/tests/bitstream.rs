use rust_av::bitstream::bitread::{BitRead, BitReadBE, BitReadLE};
use rust_av::bitstream::byteread::{
    get_i16b, get_i16l, get_i32b, get_i32l, get_i64b, get_i64l, get_i8, get_u16b, get_u16l,
    get_u32b, get_u32l, get_u64b, get_u64l, get_u8,
};
use rust_av::bitstream::bytewrite::{
    put_i16b, put_i16l, put_i32b, put_i32l, put_i64b, put_i64l, put_i8, put_u16b, put_u16l,
    put_u32b, put_u32l, put_u64b, put_u64l, put_u8,
};

const CHECKBOARD0101: [u8; 128] = [0b01010101; 128];
const CHECKBOARD0011: [u8; 128] = [0b00110011; 128];

#[test]
fn bitread_get_bit() {
    // little-endian reader
    let mut reader = BitReadLE::new(&CHECKBOARD0101);
    assert!(reader.get_bit());
    assert!(!reader.get_bit());

    // big-endian reader
    let mut reader = BitReadBE::new(&CHECKBOARD0101);
    assert!(!reader.get_bit());
    assert!(reader.get_bit());

    // little-endian reader starting with an empty cache
    let mut reader = BitReadLE::from_state(&CHECKBOARD0101, 0, 0, 0);
    assert!(reader.get_bit());
    assert!(!reader.get_bit());
}

#[test]
fn bitread_get_bits_64() {
    let mut reader = BitReadLE::new(&CHECKBOARD0101);
    assert!(reader.get_bits_64(1) == 1);
    assert!(reader.get_bits_64(2) == 2);
    assert!(reader.get_bits_64(4) == 10);
    assert!(reader.get_bits_64(1) == 0);
    assert!(reader.get_bits_64(8) == 85);
    assert_eq!(reader.get_bits_64(32), 1431655765);

    let mut reader = BitReadBE::new(&CHECKBOARD0101);
    assert!(reader.get_bits_64(1) == 0);
    assert!(reader.get_bits_64(2) == 2);
    assert!(reader.get_bits_64(4) == 10);
    assert!(reader.get_bits_64(1) == 1);
    assert!(reader.get_bits_64(8) == 85);
    assert_eq!(reader.get_bits_64(32), 1431655765);

    let mut reader = BitReadLE::from_state(&CHECKBOARD0101, 0, 0, 0);
    assert!(reader.get_bits_64(1) == 1);
    assert!(reader.get_bits_64(2) == 2);
    assert!(reader.get_bits_64(4) == 10);
    assert!(reader.get_bits_64(1) == 0);
    assert!(reader.get_bits_64(8) == 85);
}

#[test]
fn bitread_peek_bits_64() {
    let reader = BitReadLE::from_state(&CHECKBOARD0101, 0, 0, 0);
    assert!(reader.peek_bits_64(1) == 1);
    assert!(reader.peek_bits_64(1) == 1);
    assert!(reader.peek_bits_64(2) == 1);
    assert!(reader.peek_bits_64(2) == 1);

    let reader = BitReadBE::new(&CHECKBOARD0101);
    assert!(reader.peek_bits_64(1) == 0);
    assert!(reader.peek_bits_64(1) == 0);
    assert!(reader.peek_bits_64(2) == 1);
    assert!(reader.peek_bits_64(2) == 1);
}

#[test]
fn bitread_get_bits_32() {
    let mut reader = BitReadLE::from_state(&CHECKBOARD0101, 0, 0, 0);
    assert!(reader.get_bits_32(1) == 1);
    assert!(reader.get_bits_32(2) == 2);
    assert!(reader.get_bits_32(4) == 10);
    assert!(reader.get_bits_32(1) == 0);
    assert!(reader.get_bits_32(8) == 85);
    assert_eq!(reader.get_bits_32(1), 1);
    for _ in 0..8 {
        assert_eq!(reader.get_bits_32(8), 170);
    }

    let mut reader = BitReadBE::new(&CHECKBOARD0101);
    assert!(reader.get_bits_32(1) == 0);
    assert!(reader.get_bits_32(2) == 2);
    assert!(reader.get_bits_32(4) == 10);
    assert!(reader.get_bits_32(1) == 1);
    assert!(reader.get_bits_32(8) == 85);
    assert_eq!(reader.get_bits_32(1), 0);
    for _ in 0..8 {
        assert_eq!(reader.get_bits_32(8), 170);
    }

    let mut reader = BitReadLE::from_state(&CHECKBOARD0101, 0, 0, 0);
    assert!(reader.get_bits_64(1) == 1);
    assert!(reader.get_bits_64(2) == 2);
    assert!(reader.get_bits_64(4) == 10);
    assert!(reader.get_bits_64(1) == 0);
    assert!(reader.get_bits_64(8) == 85);
}

#[test]
fn bitread_peek_bits_32() {
    let mut reader = BitReadLE::new(&CHECKBOARD0101);
    assert!(reader.peek_bits_32(1) == 1);
    assert!(reader.peek_bits_32(1) == 1);
    assert!(reader.peek_bits_32(2) == 1);
    assert!(reader.peek_bits_32(2) == 1);

    let mut reader = BitReadBE::new(&CHECKBOARD0101);
    assert!(reader.peek_bits_32(1) == 0);
    assert!(reader.peek_bits_32(1) == 0);
    assert!(reader.peek_bits_32(2) == 1);
    assert!(reader.peek_bits_32(2) == 1);

    let mut reader = BitReadLE::from_state(&CHECKBOARD0101, 0, 0, 0);
    assert!(reader.peek_bits_32(1) == 1);
    assert!(reader.peek_bits_32(1) == 1);
    assert!(reader.peek_bits_32(2) == 1);
    assert!(reader.peek_bits_32(2) == 1);
}

#[test]
fn bitread_skip_bits() {
    let mut reader = BitReadLE::new(&CHECKBOARD0101);
    reader.skip_bits(0);
    assert!(reader.peek_bits_32(1) == 1);
    reader.skip_bits(2);
    assert!(reader.peek_bits_32(1) == 1);
    reader.skip_bits(2);
    assert!(reader.peek_bits_32(1) == 1);

    let mut reader = BitReadBE::new(&CHECKBOARD0101);
    reader.skip_bits(0);
    assert!(reader.peek_bits_32(1) == 0);
    reader.skip_bits(2);
    assert!(reader.peek_bits_32(1) == 0);
    reader.skip_bits(2);
    assert!(reader.peek_bits_32(1) == 0);

    let mut reader = BitReadLE::from_state(&CHECKBOARD0101, 0, 0, 0);
    reader.skip_bits(0);
    assert!(reader.peek_bits_32(1) == 1);
    reader.skip_bits(2);
    assert!(reader.peek_bits_32(1) == 1);
    reader.skip_bits(2);
    assert!(reader.peek_bits_32(1) == 1);
}

#[test]
fn bitread_align_bits() {
    let mut reader = BitReadLE::new(&CHECKBOARD0011);
    reader.align_bits();
    assert!(reader.get_bits_64(3) == 3);
    reader.align_bits();
    assert!(reader.get_bits_64(4) == 3);
    reader.skip_bits(1);
    reader.align_bits();
    assert!(reader.get_bits_64(4) == 3);

    let mut reader = BitReadBE::new(&CHECKBOARD0011);
    reader.align_bits();
    assert!(reader.get_bits_64(3) == 1);
    reader.align_bits();
    assert!(reader.get_bits_64(4) == 3);
    reader.skip_bits(1);
    reader.align_bits();
    assert!(reader.get_bits_64(4) == 3);

    let mut reader = BitReadLE::from_state(&CHECKBOARD0011, 0, 0, 0);
    assert!(reader.get_bits_64(3) == 3);
    reader.align_bits();
    assert!(reader.get_bits_64(4) == 3);
    reader.skip_bits(1);
    reader.align_bits();
    assert!(reader.get_bits_64(4) == 3);
}

#[test]
fn bitread_overread() {
    let mut reader = BitReadLE::new(&CHECKBOARD0011);
    reader.skip_bits(128 * 8 + 2);
    reader.get_bits_64(6);

    let mut reader = BitReadBE::new(&CHECKBOARD0011);
    reader.skip_bits(128 * 8 + 2);
    reader.get_bits_64(6);
}

#[test]
fn bitread_counts() {
    let mut reader = BitReadLE::new(&CHECKBOARD0101);
    assert_eq!(reader.consumed(), 0);
    assert_eq!(reader.available(), 128 * 8);
    reader.get_bits_64(13);
    assert_eq!(reader.consumed(), 13);
    assert_eq!(reader.available(), 128 * 8 - 13);
    reader.skip_bits(100);
    assert_eq!(reader.consumed(), 113);
    assert_eq!(reader.available(), 128 * 8 - 113);
}

#[test]
fn bitread_peek_bit() {
    let mut reader = BitReadBE::new(&CHECKBOARD0101);
    assert!(!reader.peek_bit());
    assert!(!reader.peek_bit());
    assert!(!reader.get_bit());
    assert!(reader.peek_bit());
}

#[test]
fn bitread_reads_big_endian_words() {
    let buf = [0x12u8, 0x34, 0x56, 0x78, 0x9a, 0xbc, 0xde, 0xf0, 0, 0, 0, 0, 0, 0, 0, 0];
    let mut be = BitReadBE::new(&buf);
    assert_eq!(be.get_bits_64(16), 0x1234);
    assert_eq!(be.get_bits_32(8), 0x56);
    let mut le = BitReadLE::new(&buf);
    assert_eq!(le.get_bits_64(16), 0x3412);
    assert_eq!(le.get_bits_32(8), 0x56);
}

#[test]
fn put_and_get_u8() {
    let mut buf = [0; 3];
    put_u8(&mut buf, 1);
    assert!(1 == get_u8(&buf));

    put_u8(&mut buf[1..], 2);
    assert!(2 == get_u8(&buf[1..]));

    put_u8(&mut buf[2..], 255);
    assert!(255 == get_u8(&buf[2..]));
}

#[test]
fn put_and_get_i8() {
    let mut buf = [0; 3];
    put_i8(&mut buf, 1);
    assert!(1 == get_i8(&buf));

    put_i8(&mut buf[1..], 2);
    assert!(2 == get_i8(&buf[1..]));

    put_i8(&mut buf[2..], -128);
    assert!(-128 == get_i8(&buf[2..]));
}

#[test]
fn put_and_get_u16_both_orders() {
    let mut buf = vec![0u8; 6];
    put_u16b(&mut buf, 1);
    assert_eq!(get_u16b(&buf), 1);
    put_u16b(&mut buf[2..], 2);
    assert_eq!(get_u16b(&buf[2..]), 2);
    put_u16b(&mut buf[4..], 255);
    assert_eq!(get_u16b(&buf[4..]), 255);
    assert_eq!(&buf[..], &[0, 1, 0, 2, 0, 255]);
    put_u16l(&mut buf, 0x1234);
    assert_eq!(&buf[..2], &[0x34, 0x12]);
    assert_eq!(get_u16l(&buf), 0x1234);
    assert_eq!(get_u16b(&buf), 0x3412);
}

#[test]
fn put_and_get_signed_both_orders() {
    let mut buf = vec![0u8; 8];
    put_i16l(&mut buf, -2);
    assert_eq!(get_i16l(&buf), -2);
    put_i16b(&mut buf, -300);
    assert_eq!(get_i16b(&buf), -300);
    put_i32l(&mut buf, -70000);
    assert_eq!(get_i32l(&buf), -70000);
    put_i32b(&mut buf, i32::MIN);
    assert_eq!(get_i32b(&buf), i32::MIN);
    put_i64l(&mut buf, -5);
    assert_eq!(get_i64l(&buf), -5);
    assert_eq!(&buf[..], &[0xfb, 0xff, 0xff, 0xff, 0xff, 0xff, 0xff, 0xff]);
    put_i64b(&mut buf, i64::MAX);
    assert_eq!(get_i64b(&buf), i64::MAX);
    assert_eq!(&buf[..], &[0x7f, 0xff, 0xff, 0xff, 0xff, 0xff, 0xff, 0xff]);
}

#[test]
fn put_and_get_wide_both_orders() {
    let mut buf = vec![0u8; 8];
    put_u32l(&mut buf, 0x0102_0304);
    assert_eq!(&buf[..4], &[4, 3, 2, 1]);
    assert_eq!(get_u32l(&buf), 0x0102_0304);
    put_u32b(&mut buf, 0x0102_0304);
    assert_eq!(&buf[..4], &[1, 2, 3, 4]);
    assert_eq!(get_u32b(&buf), 0x0102_0304);
    put_u64l(&mut buf, 0x0102_0304_0506_0708);
    assert_eq!(&buf[..], &[8, 7, 6, 5, 4, 3, 2, 1]);
    assert_eq!(get_u64l(&buf), 0x0102_0304_0506_0708);
    put_u64b(&mut buf, 0x0102_0304_0506_0708);
    assert_eq!(&buf[..], &[1, 2, 3, 4, 5, 6, 7, 8]);
    assert_eq!(get_u64b(&buf), 0x0102_0304_0506_0708);
}

#[test]
fn bitread_full_64_bit_reads() {
    let b = &CHECKBOARD0101;
    assert_eq!(BitReadLE::new(b).get_bits_64(64), 0x5555_5555_5555_5555);
    assert_eq!(BitReadBE::new(b).get_bits_64(64), 0x5555_5555_5555_5555);

    let mut r = BitReadBE::new(b);
    r.get_bits_64(32);
    r.get_bits_64(32);
    assert_eq!(r.get_bits_64(8), 0x55);
    assert_eq!(r.consumed(), 72);

    let mut r = BitReadLE::new(b);
    r.get_bits_64(64);
    assert_eq!(r.get_bits_64(64), 0x5555_5555_5555_5555);
    assert_eq!(r.consumed(), 128);

    let mut r = BitReadBE::new(b);
    r.skip_bits(64);
    assert_eq!(r.consumed(), 64);
    assert_eq!(r.get_bits_64(64), 0x5555_5555_5555_5555);
}
