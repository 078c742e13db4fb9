//! What the bit readers read: the bits of the buffer, in order.
//!
//! The bits of a buffer form a stream, least significant bit of each byte
//! first (`Endian::Little`) or most significant bit first (`Endian::Big`).
//! A reader state is *synced* when its cache holds exactly the next `left`
//! bits of that stream.  The laws below show that every operation keeps a
//! synced reader synced and reads or skips the next bits of the stream; a
//! reader reads zeros past the last byte it could load.
use vstd::prelude::*;
use vstd::arithmetic::power2::{pow2, lemma_pow2_pos, lemma_pow2_adds, lemma_pow2_unfold,
    lemma2_to64, lemma_pow2_strictly_increases};
use vstd::arithmetic::mul::{lemma_mul_is_associative, lemma_mul_is_commutative,
    lemma_mul_inequality, lemma_mul_strict_inequality, lemma_mul_is_distributive_add};
use vstd::arithmetic::div_mod::{lemma_fundamental_div_mod_converse, lemma_small_mod, lemma_basic_div};
use vstd::bits::{lemma_u64_shr_is_div, lemma_u64_shl_is_mul, lemma_u64_low_bits_mask_is_mod,
    lemma_u64_pow2_no_overflow, low_bits_mask};
use crate::bitstream::endian::{le32, le64, be32, be64};
use crate::bitstream::bitmodel::{Endian, BitState, consumed, peek, skip_rem, refill64, refill32,
    can_refill, get_val, get_val_ok, get_bits_64, get_bits_64_ok, get_bits_32, get_bits_32_ok,
    get_bit, get_bit_ok, skip_bits, skip_bits_ok, skip_index, skip_tail, align_bits, new_state,
    empty_state, available, fill32, fill64, merge};

verus! {

/// Bit `p` of the stream of `buf`, least significant bit of each byte first;
/// zero outside the buffer.
pub open spec fn bit_le(buf: Seq<u8>, p: int) -> nat {
    if 0 <= p < buf.len() * 8 {
        ((buf[p / 8] >> ((p % 8) as u8)) & 1u8) as nat
    } else {
        0
    }
}

/// Value of the `n` stream bits from position `p`, least significant bit
/// first.
pub open spec fn le_bits(buf: Seq<u8>, p: int, n: nat) -> nat
    decreases n,
{
    if n == 0 {
        0
    } else {
        bit_le(buf, p) + 2 * le_bits(buf, p + 1, (n - 1) as nat)
    }
}

/// Value of `m` bytes from byte `i`, least significant byte first.
pub open spec fn le_bytes_val(buf: Seq<u8>, i: int, m: nat) -> nat
    decreases m,
{
    if m == 0 {
        0
    } else {
        buf[i] as nat + 256 * le_bytes_val(buf, i + 1, (m - 1) as nat)
    }
}

proof fn lemma_pow2_1()
    ensures
        pow2(0) == 1,
        pow2(1) == 2,
{
    lemma2_to64();
}

/// Splitting a read in two: the first `a` bits are the low part.
pub proof fn lemma_le_split(buf: Seq<u8>, p: int, a: nat, c: nat)
    ensures
        le_bits(buf, p, a + c) == le_bits(buf, p, a) + pow2(a) * le_bits(buf, p + a, c),
    decreases a,
{
    lemma_pow2_1();
    if a > 0 {
        lemma_le_split(buf, p + 1, (a - 1) as nat, c);
        lemma_pow2_unfold(a);
        let x = le_bits(buf, p + a, c) as int;
        let q = pow2((a - 1) as nat) as int;
        lemma_mul_is_associative(2, q, x);
        let a1 = (a - 1) as nat;
        assert(a1 + c == (a + c - 1) as nat);
        assert(p + 1 + a1 == p + a);
        assert(le_bits(buf, p, a + c) == bit_le(buf, p) + 2 * le_bits(buf, p + 1, a1 + c));
        assert(le_bits(buf, p + 1, a1 + c) == le_bits(buf, p + 1, a1) + q * x);
        assert(le_bits(buf, p, a) == bit_le(buf, p) + 2 * le_bits(buf, p + 1, a1));
        assert(pow2(a) == 2 * q);
        assert(2 * (q * x) == (2 * q) * x);
        assert(le_bits(buf, p, a + c) == le_bits(buf, p, a) + (2 * q) * x);
    } else {
        assert(le_bits(buf, p, a) == 0);
        assert(pow2(a) * le_bits(buf, p + a, c) == le_bits(buf, p, c));
    }
}

/// A read of `n` bits is below `2^n`.
pub proof fn lemma_le_bound(buf: Seq<u8>, p: int, n: nat)
    ensures
        le_bits(buf, p, n) < pow2(n),
    decreases n,
{
    lemma_pow2_1();
    if n > 0 {
        lemma_le_bound(buf, p + 1, (n - 1) as nat);
        lemma_pow2_unfold(n);
        if 0 <= p < buf.len() * 8 {
            let b = buf[p / 8];
            let k = (p % 8) as u8;
            assert((b >> k) & 1u8 <= 1) by (bit_vector);
        }
    }
}

/// Bits of a prefix of the buffer: the same below its end, zero after it.
pub proof fn lemma_le_take(buf: Seq<u8>, k: int, p: int, n: nat)
    requires
        0 <= k <= buf.len(),
    ensures
        p + n <= 8 * k ==> le_bits(buf.take(k), p, n) == le_bits(buf, p, n),
        p >= 8 * k ==> le_bits(buf.take(k), p, n) == 0,
    decreases n,
{
    if n > 0 {
        lemma_le_take(buf, k, p + 1, (n - 1) as nat);
        if 0 <= p < 8 * k {
            assert(p / 8 < k);
            assert(buf.take(k)[p / 8] == buf[p / 8]);
        }
    }
}

/// The eight bits of byte `i` are that byte.
pub proof fn lemma_le_byte(buf: Seq<u8>, i: int)
    requires
        0 <= i < buf.len(),
    ensures
        le_bits(buf, 8 * i, 8) == buf[i],
{
    reveal_with_fuel(le_bits, 9);
    let b = buf[i];
    assert((8 * i + 0) / 8 == i && (8 * i + 0) % 8 == 0);
    assert((8 * i + 1) / 8 == i && (8 * i + 1) % 8 == 1);
    assert((8 * i + 2) / 8 == i && (8 * i + 2) % 8 == 2);
    assert((8 * i + 3) / 8 == i && (8 * i + 3) % 8 == 3);
    assert((8 * i + 4) / 8 == i && (8 * i + 4) % 8 == 4);
    assert((8 * i + 5) / 8 == i && (8 * i + 5) % 8 == 5);
    assert((8 * i + 6) / 8 == i && (8 * i + 6) % 8 == 6);
    assert((8 * i + 7) / 8 == i && (8 * i + 7) % 8 == 7);
    assert(b == (b & 1u8) + 2 * (((b >> 1u8) & 1u8) + 2 * (((b >> 2u8) & 1u8) + 2 * (((b >> 3u8)
        & 1u8) + 2 * (((b >> 4u8) & 1u8) + 2 * (((b >> 5u8) & 1u8) + 2 * (((b >> 6u8) & 1u8) + 2
        * ((b >> 7u8) & 1u8)))))))) by (bit_vector);
    assert((b >> 0u8) == b) by (bit_vector);
}

/// Whole bytes read as bits are the bytes' little-endian value.
pub proof fn lemma_le_bytes(buf: Seq<u8>, i: int, m: nat)
    requires
        0 <= i,
        i + m <= buf.len(),
    ensures
        le_bits(buf, 8 * i, 8 * m) == le_bytes_val(buf, i, m),
    decreases m,
{
    if m > 0 {
        lemma_le_bytes(buf, i + 1, (m - 1) as nat);
        lemma_le_split(buf, 8 * i, 8, 8 * (m - 1) as nat);
        lemma_le_byte(buf, i);
        lemma2_to64();
        assert(8 * i + 8 == 8 * (i + 1));
        assert(8 + 8 * (m - 1) as nat == 8 * m);
    }
}

/// The cache refill of four bytes holds the next 32 stream bits.
pub proof fn lemma_le_fill32(buf: Seq<u8>, i: int)
    requires
        0 <= i,
        i + 4 <= buf.len(),
    ensures
        le_bits(buf, 8 * i, 32) == le32(buf.skip(i)),
{
    lemma_le_bytes(buf, i, 4);
    reveal_with_fuel(le_bytes_val, 5);
}

/// The cache refill of eight bytes holds the next 64 stream bits.
pub proof fn lemma_le_fill64(buf: Seq<u8>, i: int)
    requires
        0 <= i,
        i + 8 <= buf.len(),
    ensures
        le_bits(buf, 8 * i, 64) == le64(buf.skip(i)),
{
    lemma_le_bytes(buf, i, 8);
    reveal_with_fuel(le_bytes_val, 9);
}


/// The smaller of two integers.
pub open spec fn min_int(a: int, b: int) -> int {
    if a <= b {
        a
    } else {
        b
    }
}

/// The bytes a reader has loaded so far.
pub open spec fn loaded(s: BitState) -> Seq<u8> {
    s.buf.take(s.index as int)
}

/// The cache of a synced reader holds the `left` stream bits that follow the
/// consumed ones, aligned on bit 0 for `Little` and on bit 63 for `Big`.
pub open spec fn synced_le(s: BitState) -> bool {
    &&& s.index <= s.buf.len()
    &&& s.left <= 64
    &&& s.left <= 8 * s.index
    &&& s.cache == le_bits(s.buf, consumed(s), s.left)
}

proof fn lemma_le_peek(s: BitState, n: nat)
    requires
        synced_le(s),
        n <= 64,
    ensures
        peek(Endian::Little, s, n) == le_bits(loaded(s), consumed(s), n),
{
    let x = s.cache;
    let p = consumed(s);
    let l = s.left;
    let k = s.index as int;
    lemma_le_bound(s.buf, p, l);
    lemma_pow2_pos(n);
    if n < 64 {
        lemma_u64_pow2_no_overflow(n);
        lemma_u64_shl_is_mul(1u64, n as u64);
        assert(((1u64 << n as u64) - 1) as u64 == low_bits_mask(n) as u64);
        lemma_u64_low_bits_mask_is_mod(x, n);
        assert(peek(Endian::Little, s, n) as int == x as int % pow2(n) as int);
    } else {
        lemma2_to64();
        lemma_small_mod(x as nat, pow2(n));
        assert(peek(Endian::Little, s, n) as int == x as int % pow2(n) as int);
    }
    if n <= l {
        let lo = le_bits(s.buf, p, n) as int;
        let hi = le_bits(s.buf, p + n, (l - n) as nat) as int;
        lemma_le_split(s.buf, p, n, (l - n) as nat);
        assert(n + (l - n) as nat == l);
        lemma_le_bound(s.buf, p, n);
        lemma_mul_is_commutative(pow2(n) as int, hi);
        lemma_fundamental_div_mod_converse(x as int, pow2(n) as int, hi, lo);
        lemma_le_take(s.buf, k, p, n);
    } else {
        lemma_pow2_strictly_increases(l, n);
        lemma_small_mod(x as nat, pow2(n));
        lemma_le_split(loaded(s), p, l, (n - l) as nat);
        assert(l + (n - l) as nat == n);
        lemma_le_take(s.buf, k, p, l);
        lemma_le_take(s.buf, k, p + l, (n - l) as nat);
    }
}

proof fn lemma_le_skip(s: BitState, n: nat)
    requires
        synced_le(s),
        n <= 64,
    ensures
        synced_le(skip_rem(Endian::Little, s, n)),
        skip_rem(Endian::Little, s, n).index == s.index,
        skip_rem(Endian::Little, s, n).buf == s.buf,
        consumed(skip_rem(Endian::Little, s, n)) == min_int(consumed(s) + n, 8 * s.index as int),
{
    if n == 64 {
        assert(le_bits(s.buf, 8 * s.index as int, 0) == 0);
        return;
    }
    let x = s.cache;
    let p = consumed(s);
    let l = s.left;
    lemma_u64_shr_is_div(x, n as u64);
    lemma_le_bound(s.buf, p, l);
    lemma_pow2_pos(n);
    if n <= l {
        let lo = le_bits(s.buf, p, n) as int;
        let hi = le_bits(s.buf, p + n, (l - n) as nat) as int;
        lemma_le_split(s.buf, p, n, (l - n) as nat);
        assert(n + (l - n) as nat == l);
        lemma_le_bound(s.buf, p, n);
        lemma_mul_is_commutative(pow2(n) as int, hi);
        lemma_fundamental_div_mod_converse(x as int, pow2(n) as int, hi, lo);
    } else {
        lemma_pow2_strictly_increases(l, n);
        lemma_basic_div(x as int, pow2(n) as int);
    }
}

proof fn lemma_le_refill64(s: BitState)
    requires
        can_refill(s),
    ensures
        synced_le(refill64(Endian::Little, s)),
        consumed(refill64(Endian::Little, s)) == 8 * s.index,
{
    let k = s.index as int;
    lemma_le_fill64(s.buf, k);
    let v = le64(s.buf.skip(k));
    assert(0 <= v <= u64::MAX);
}

proof fn lemma_le_refill32(s: BitState)
    requires
        synced_le(s),
        s.left <= 32,
        can_refill(s),
    ensures
        synced_le(refill32(Endian::Little, s)),
        consumed(refill32(Endian::Little, s)) == consumed(s),
{
    let x = s.cache;
    let p = consumed(s);
    let l = s.left;
    let k = s.index as int;
    let f = fill32(Endian::Little, s);
    let l64 = l as u64;
    lemma_le_fill32(s.buf, k);
    assert(f == le_bits(s.buf, p + l, 32));
    assert(f < 0x1_0000_0000);
    lemma_le_bound(s.buf, p, l);
    lemma_u64_pow2_no_overflow(l);
    lemma_u64_shl_is_mul(1u64, l64);
    lemma2_to64();
    if l < 32 {
        lemma_pow2_strictly_increases(l, 32);
    }
    assert(pow2(l) <= 0x1_0000_0000);
    lemma_mul_inequality(f as int, 0xffff_ffff, pow2(l) as int);
    lemma_mul_inequality(pow2(l) as int, 0x1_0000_0000, 0xffff_ffff);
    lemma_mul_is_commutative(pow2(l) as int, 0xffff_ffff);
    lemma_u64_shl_is_mul(f, l64);
    assert(x | (f << l64) == x + (f << l64)) by (bit_vector)
        requires
            l64 <= 32,
            x < (1u64 << l64),
            f < 0x1_0000_0000,
    ;
    lemma_le_split(s.buf, p, l, 32);
    lemma_mul_is_commutative(pow2(l) as int, f as int);
}

/// What `get_bits_64` reads from a synced little-endian reader.
proof fn lemma_le_get_bits_64(s: BitState, n: nat)
    requires
        synced_le(s),
        get_bits_64_ok(Endian::Little, s, n),
        n <= 64,
    ensures
        synced_le(get_bits_64(Endian::Little, s, n).1),
        get_bits_64(Endian::Little, s, n).1.buf == s.buf,
        get_bits_64(Endian::Little, s, n).1.index >= s.index,
        get_bits_64(Endian::Little, s, n).0 == le_bits(
            loaded(get_bits_64(Endian::Little, s, n).1),
            consumed(s),
            n,
        ),
        consumed(get_bits_64(Endian::Little, s, n).1) == min_int(
            consumed(s) + n,
            8 * get_bits_64(Endian::Little, s, n).1.index as int,
        ),
{
    let e = Endian::Little;
    let p = consumed(s);
    let l = s.left;
    if n == 0 {
    } else if l < n {
        let (ret, s1) = get_val(e, s, l);
        lemma_le_peek(s, l);
        lemma_le_skip(s, l);
        let s2 = refill64(e, s1);
        if can_refill(s1) {
            lemma_le_refill64(s1);
        }
        let m = (n - l) as nat;
        let (v, s3) = get_val(e, s2, m);
        lemma_le_peek(s2, m);
        lemma_le_skip(s2, m);
        let k = s.index as int;
        let k2 = s2.index as int;
        lemma_le_take(s.buf, k, p, l);
        lemma_le_take(s.buf, k2, p, l);
        lemma_le_bound(loaded(s2), p + l, m);
        lemma_le_bound(loaded(s), p, l);
        lemma_pow2_adds(m, l);
        lemma_pow2_pos(l);
        lemma_mul_inequality(v as int, pow2(m) as int - 1, pow2(l) as int);
        assert((pow2(m) - 1) * pow2(l) == pow2(m) * pow2(l) - pow2(l)) by {
            lemma_mul_is_distributive_add(pow2(l) as int, pow2(m) as int, -1);
            lemma_mul_is_commutative(pow2(l) as int, pow2(m) as int);
            lemma_mul_is_commutative(pow2(l) as int, pow2(m) as int - 1);
        }
        assert(pow2(n) <= 0x1_0000_0000_0000_0000) by {
            lemma2_to64();
            if n < 64 {
                lemma_pow2_strictly_increases(n, 64);
            }
        }
        let l64 = l as u64;
        lemma_u64_pow2_no_overflow(l);
        lemma_u64_shl_is_mul(v, l64);
        lemma_u64_shl_is_mul(1u64, l64);
        assert((v << l64) | ret == (v << l64) + ret) by (bit_vector)
            requires
                l64 < 64,
                ret < (1u64 << l64),
        ;
        lemma_le_split(loaded(s2), p, l, m);
        lemma_mul_is_commutative(pow2(l) as int, v as int);
    } else {
        lemma_le_peek(s, n);
        lemma_le_skip(s, n);
        let v = peek(e, s, n);
        assert((v << 0u64) | 0u64 == v) by (bit_vector);
    }
}


/// Bit `p` of the stream of `buf`, most significant bit of each byte first;
/// zero outside the buffer.
pub open spec fn bit_be(buf: Seq<u8>, p: int) -> nat {
    if 0 <= p < buf.len() * 8 {
        ((buf[p / 8] >> ((7 - p % 8) as u8)) & 1u8) as nat
    } else {
        0
    }
}

/// Value of the `n` stream bits from position `p`, most significant bit
/// first.
pub open spec fn be_bits(buf: Seq<u8>, p: int, n: nat) -> nat
    decreases n,
{
    if n == 0 {
        0
    } else {
        2 * be_bits(buf, p, (n - 1) as nat) + bit_be(buf, p + n - 1)
    }
}

/// Value of `m` bytes from byte `i`, most significant byte first.
pub open spec fn be_bytes_val(buf: Seq<u8>, i: int, m: nat) -> nat
    decreases m,
{
    if m == 0 {
        0
    } else {
        256 * be_bytes_val(buf, i, (m - 1) as nat) + buf[i + m - 1] as nat
    }
}

/// Splitting a read in two: the first `a` bits are the high part.
pub proof fn lemma_be_split(buf: Seq<u8>, p: int, a: nat, c: nat)
    ensures
        be_bits(buf, p, a + c) == be_bits(buf, p, a) * pow2(c) + be_bits(buf, p + a, c),
    decreases c,
{
    lemma_pow2_1();
    if c > 0 {
        let c1 = (c - 1) as nat;
        lemma_be_split(buf, p, a, c1);
        lemma_pow2_unfold(c);
        let x = be_bits(buf, p, a) as int;
        let q = pow2(c1) as int;
        lemma_mul_is_associative(x, q, 2);
        lemma_mul_is_commutative(x * q, 2);
        assert(a + c1 == (a + c - 1) as nat);
        assert(be_bits(buf, p, a + c) == 2 * be_bits(buf, p, a + c1) + bit_be(buf, p + a + c - 1));
        assert(be_bits(buf, p + a, c) == 2 * be_bits(buf, p + a, c1) + bit_be(buf, p + a + c - 1));
        assert(pow2(c) == q * 2);
        assert(2 * (x * q) == x * (q * 2));
    } else {
        assert(be_bits(buf, p + a, c) == 0);
    }
}

/// A read of `n` bits is below `2^n`.
pub proof fn lemma_be_bound(buf: Seq<u8>, p: int, n: nat)
    ensures
        be_bits(buf, p, n) < pow2(n),
    decreases n,
{
    lemma_pow2_1();
    if n > 0 {
        lemma_be_bound(buf, p, (n - 1) as nat);
        lemma_pow2_unfold(n);
        let q = p + n - 1;
        if 0 <= q < buf.len() * 8 {
            let b = buf[q / 8];
            let k = (7 - q % 8) as u8;
            assert((b >> k) & 1u8 <= 1) by (bit_vector);
        }
    }
}

/// Bits of a prefix of the buffer: the same below its end, zero after it.
pub proof fn lemma_be_take(buf: Seq<u8>, k: int, p: int, n: nat)
    requires
        0 <= k <= buf.len(),
    ensures
        p + n <= 8 * k ==> be_bits(buf.take(k), p, n) == be_bits(buf, p, n),
        p >= 8 * k ==> be_bits(buf.take(k), p, n) == 0,
    decreases n,
{
    if n > 0 {
        lemma_be_take(buf, k, p, (n - 1) as nat);
        let q = p + n - 1;
        if 0 <= q < 8 * k {
            assert(q / 8 < k);
            assert(buf.take(k)[q / 8] == buf[q / 8]);
        }
    }
}

/// The eight bits of byte `i` are that byte.
pub proof fn lemma_be_byte(buf: Seq<u8>, i: int)
    requires
        0 <= i < buf.len(),
    ensures
        be_bits(buf, 8 * i, 8) == buf[i],
{
    reveal_with_fuel(be_bits, 9);
    let b = buf[i];
    assert((8 * i + 0) / 8 == i && (8 * i + 0) % 8 == 0);
    assert((8 * i + 1) / 8 == i && (8 * i + 1) % 8 == 1);
    assert((8 * i + 2) / 8 == i && (8 * i + 2) % 8 == 2);
    assert((8 * i + 3) / 8 == i && (8 * i + 3) % 8 == 3);
    assert((8 * i + 4) / 8 == i && (8 * i + 4) % 8 == 4);
    assert((8 * i + 5) / 8 == i && (8 * i + 5) % 8 == 5);
    assert((8 * i + 6) / 8 == i && (8 * i + 6) % 8 == 6);
    assert((8 * i + 7) / 8 == i && (8 * i + 7) % 8 == 7);
    assert(b == 2 * (2 * (2 * (2 * (2 * (2 * (2 * ((b >> 7u8) & 1u8) + ((b >> 6u8) & 1u8)) + ((b
        >> 5u8) & 1u8)) + ((b >> 4u8) & 1u8)) + ((b >> 3u8) & 1u8)) + ((b >> 2u8) & 1u8)) + ((b
        >> 1u8) & 1u8)) + ((b >> 0u8) & 1u8)) by (bit_vector);
}

/// Whole bytes read as bits are the bytes' big-endian value.
pub proof fn lemma_be_bytes(buf: Seq<u8>, i: int, m: nat)
    requires
        0 <= i,
        i + m <= buf.len(),
    ensures
        be_bits(buf, 8 * i, 8 * m) == be_bytes_val(buf, i, m),
    decreases m,
{
    if m > 0 {
        let m1 = (m - 1) as nat;
        lemma_be_bytes(buf, i, m1);
        lemma_be_split(buf, 8 * i, 8 * m1, 8);
        lemma_be_byte(buf, i + m1);
        lemma2_to64();
        assert(8 * i + 8 * m1 == 8 * (i + m1));
        assert(8 * m1 + 8 == 8 * m);
    }
}

/// The cache refill of four bytes holds the next 32 stream bits.
pub proof fn lemma_be_fill32(buf: Seq<u8>, i: int)
    requires
        0 <= i,
        i + 4 <= buf.len(),
    ensures
        be_bits(buf, 8 * i, 32) == be32(buf.skip(i)),
{
    lemma_be_bytes(buf, i, 4);
    reveal_with_fuel(be_bytes_val, 5);
}

/// The cache refill of eight bytes holds the next 64 stream bits.
pub proof fn lemma_be_fill64(buf: Seq<u8>, i: int)
    requires
        0 <= i,
        i + 8 <= buf.len(),
    ensures
        be_bits(buf, 8 * i, 64) == be64(buf.skip(i)),
{
    lemma_be_bytes(buf, i, 8);
    reveal_with_fuel(be_bytes_val, 9);
}


/// The cache of a synced big-endian reader holds the next `left` stream bits
/// in its top bits, and zeros below them.
pub open spec fn synced_be(s: BitState) -> bool {
    &&& s.index <= s.buf.len()
    &&& s.left <= 64
    &&& s.left <= 8 * s.index
    &&& s.cache == be_bits(s.buf, consumed(s), s.left) * pow2((64 - s.left) as nat)
}

/// `hi * 2^a * 2^b == hi * 2^(a + b)`.
proof fn lemma_mul_pow2_pow2(hi: int, a: nat, b: nat)
    ensures
        hi * pow2(a) * pow2(b) == hi * pow2(a + b),
{
    lemma_pow2_adds(a, b);
    lemma_mul_is_associative(hi, pow2(a) as int, pow2(b) as int);
}

/// Splits a synced big-endian cache after its first `n` bits.
proof fn lemma_be_cache_split(s: BitState, n: nat)
    requires
        synced_be(s),
        n <= s.left,
    ensures
        s.cache == be_bits(s.buf, consumed(s), n) * pow2((64 - n) as nat) + be_bits(
            s.buf,
            consumed(s) + n,
            (s.left - n) as nat,
        ) * pow2((64 - s.left) as nat),
        be_bits(s.buf, consumed(s) + n, (s.left - n) as nat) * pow2((64 - s.left) as nat) < pow2(
            (64 - n) as nat,
        ),
{
    let p = consumed(s);
    let l = s.left;
    let hi = be_bits(s.buf, p, n) as int;
    let lo = be_bits(s.buf, p + n, (l - n) as nat) as int;
    lemma_be_split(s.buf, p, n, (l - n) as nat);
    assert(n + (l - n) as nat == l);
    lemma_mul_is_distributive_add(pow2((64 - l) as nat) as int, hi * pow2((l - n) as nat), lo);
    lemma_mul_is_commutative(pow2((64 - l) as nat) as int, hi * pow2((l - n) as nat) + lo);
    lemma_mul_is_commutative(pow2((64 - l) as nat) as int, hi * pow2((l - n) as nat));
    lemma_mul_is_commutative(pow2((64 - l) as nat) as int, lo);
    lemma_mul_pow2_pow2(hi, (l - n) as nat, (64 - l) as nat);
    assert((l - n) as nat + (64 - l) as nat == (64 - n) as nat);
    lemma_be_bound(s.buf, p + n, (l - n) as nat);
    lemma_pow2_pos((64 - l) as nat);
    lemma_mul_strict_inequality(lo, pow2((l - n) as nat) as int, pow2((64 - l) as nat) as int);
    lemma_pow2_adds((l - n) as nat, (64 - l) as nat);
}

proof fn lemma_be_peek(s: BitState, n: nat)
    requires
        synced_be(s),
        n <= 64,
    ensures
        peek(Endian::Big, s, n) == be_bits(loaded(s), consumed(s), n),
{
    if n == 0 {
        return;
    }
    let x = s.cache;
    let p = consumed(s);
    let l = s.left;
    let k = s.index as int;
    let sh = (64 - n) as nat;
    lemma_u64_shr_is_div(x, sh as u64);
    lemma_pow2_pos(sh);
    if n <= l {
        lemma_be_cache_split(s, n);
        let hi = be_bits(s.buf, p, n) as int;
        let r = be_bits(s.buf, p + n, (l - n) as nat) * pow2((64 - l) as nat);
        lemma_fundamental_div_mod_converse(x as int, pow2(sh) as int, hi, r as int);
        lemma_be_take(s.buf, k, p, n);
    } else {
        let b = be_bits(s.buf, p, l) as int;
        lemma_mul_pow2_pow2(b, (n - l) as nat, sh);
        assert((n - l) as nat + sh == (64 - l) as nat);
        lemma_fundamental_div_mod_converse(x as int, pow2(sh) as int, b * pow2((n - l) as nat), 0);
        lemma_be_split(loaded(s), p, l, (n - l) as nat);
        assert(l + (n - l) as nat == n);
        lemma_be_take(s.buf, k, p, l);
        lemma_be_take(s.buf, k, p + l, (n - l) as nat);
    }
}

proof fn lemma_be_skip(s: BitState, n: nat)
    requires
        synced_be(s),
        n <= 64,
    ensures
        synced_be(skip_rem(Endian::Big, s, n)),
        skip_rem(Endian::Big, s, n).index == s.index,
        skip_rem(Endian::Big, s, n).buf == s.buf,
        consumed(skip_rem(Endian::Big, s, n)) == min_int(consumed(s) + n, 8 * s.index as int),
{
    if n == 64 {
        assert(be_bits(s.buf, 8 * s.index as int, 0) == 0);
        assert(0 * pow2(64) == 0);
        return;
    }
    let x = s.cache;
    let p = consumed(s);
    let l = s.left;
    let n64 = n as u64;
    if n == 0 {
        assert(x << n64 == x) by (bit_vector)
            requires
                n64 == 0,
        ;
    } else {
        let sh = (64 - n) as nat;
        let sh64 = sh as u64;
        lemma_u64_pow2_no_overflow(sh);
        lemma_u64_shl_is_mul(1u64, sh64);
        lemma_pow2_pos(sh);
        assert(x << n64 == (x & (((1u64 << sh64) - 1u64) as u64)) << n64) by (bit_vector)
            requires
                1 <= n64 < 64,
                sh64 == 64 - n64,
        ;
        assert((((1u64 << sh64) - 1u64) as u64) == low_bits_mask(sh) as u64);
        lemma_u64_low_bits_mask_is_mod(x, sh);
        lemma_pow2_adds(sh, n);
        assert(sh + n == 64);
        lemma2_to64();
        if n <= l {
            lemma_be_cache_split(s, n);
            let hi = be_bits(s.buf, p, n) as int;
            let lo = be_bits(s.buf, p + n, (l - n) as nat) as int;
            let r = lo * pow2((64 - l) as nat);
            lemma_fundamental_div_mod_converse(x as int, pow2(sh) as int, hi, r);
            let r64 = x & (((1u64 << sh64) - 1u64) as u64);
            assert(r64 == r);
            lemma_pow2_pos(n);
            lemma_mul_strict_inequality(r, pow2(sh) as int, pow2(n) as int);
            lemma_u64_shl_is_mul(r64, n64);
            lemma_mul_pow2_pow2(lo, (64 - l) as nat, n);
            assert((64 - l) as nat + n == (64 - (l - n) as nat) as nat);
            let s2 = skip_rem(Endian::Big, s, n);
            assert(x << n64 == r64 << n64);
            assert(s2.cache == r * pow2(n));
            assert(consumed(s2) == p + n);
            assert(s2.cache == lo * pow2((64 - s2.left) as nat));
        } else {
            let b = be_bits(s.buf, p, l) as int;
            lemma_mul_pow2_pow2(b, (n - l) as nat, sh);
            assert((n - l) as nat + sh == (64 - l) as nat);
            lemma_fundamental_div_mod_converse(x as int, pow2(sh) as int, b * pow2((n - l) as nat), 0);
            assert(0u64 << n64 == 0) by (bit_vector);
            assert(x & (((1u64 << sh64) - 1u64) as u64) == 0);
            assert(x << n64 == 0);
            let s2 = skip_rem(Endian::Big, s, n);
            assert(s2.left == 0);
            assert(be_bits(s.buf, consumed(s2), 0) == 0);
            assert(0 * pow2(64) == 0);
        }
    }
}

proof fn lemma_be_refill64(s: BitState)
    requires
        can_refill(s),
    ensures
        synced_be(refill64(Endian::Big, s)),
        consumed(refill64(Endian::Big, s)) == 8 * s.index,
{
    let k = s.index as int;
    lemma_be_fill64(s.buf, k);
    lemma2_to64();
    let v = be64(s.buf.skip(k));
    assert(0 <= v <= u64::MAX);
    let s2 = refill64(Endian::Big, s);
    assert(s2.left == 64);
    assert(consumed(s2) == 8 * k);
    assert(s2.cache == v);
    assert(pow2((64 - s2.left) as nat) == 1);
    assert(s2.cache == be_bits(s.buf, 8 * k, 64) * 1);
}

proof fn lemma_be_refill32(s: BitState)
    requires
        synced_be(s),
        s.left <= 32,
        can_refill(s),
    ensures
        synced_be(refill32(Endian::Big, s)),
        consumed(refill32(Endian::Big, s)) == consumed(s),
{
    let x = s.cache;
    let p = consumed(s);
    let l = s.left;
    let k = s.index as int;
    let f = fill32(Endian::Big, s);
    let b = be_bits(s.buf, p, l) as int;
    let sh = (32 - l) as nat;
    let sh64 = sh as u64;
    lemma_be_fill32(s.buf, k);
    assert(f == be_bits(s.buf, p + l, 32));
    assert(f < 0x1_0000_0000);
    lemma2_to64();
    lemma_u64_pow2_no_overflow(sh);
    lemma_pow2_pos(sh);
    lemma_mul_strict_inequality(f as int, 0x1_0000_0000, pow2(sh) as int);
    lemma_pow2_adds(32, sh);
    assert(32 + sh == (64 - l) as nat);
    if l > 0 {
        lemma_pow2_strictly_increases((64 - l) as nat, 64);
    }
    lemma_u64_shl_is_mul(f, sh64);
    let y = f << sh64;
    if l == 0 {
        assert(b == 0);
        assert(x == 0 * pow2(64));
        assert(x == 0);
        assert(0u64 | y == y) by (bit_vector);
    } else {
        let k64 = (64 - l) as u64;
        lemma_u64_pow2_no_overflow((64 - l) as nat);
        lemma_u64_shl_is_mul(1u64, k64);
        lemma_fundamental_div_mod_converse(x as int, pow2((64 - l) as nat) as int, b, 0);
        lemma_u64_low_bits_mask_is_mod(x, (64 - l) as nat);
        assert((((1u64 << k64) - 1u64) as u64) == low_bits_mask((64 - l) as nat) as u64);
        assert(x | y == x + y) by (bit_vector)
            requires
                k64 < 64,
                x & (((1u64 << k64) - 1u64) as u64) == 0,
                y < (1u64 << k64),
        ;
    }
    lemma_be_split(s.buf, p, l, 32);
    lemma_mul_pow2_pow2(b, 32, sh);
    lemma_mul_is_distributive_add(pow2(sh) as int, b * pow2(32), f as int);
    lemma_mul_is_commutative(pow2(sh) as int, b * pow2(32) + f);
    lemma_mul_is_commutative(pow2(sh) as int, b * pow2(32));
    lemma_mul_is_commutative(pow2(sh) as int, f as int);
    assert((64 - (l + 32)) as nat == sh);
}


/// What `get_bits_64` reads from a synced big-endian reader.
proof fn lemma_be_get_bits_64(s: BitState, n: nat)
    requires
        synced_be(s),
        get_bits_64_ok(Endian::Big, s, n),
        n <= 64,
    ensures
        synced_be(get_bits_64(Endian::Big, s, n).1),
        get_bits_64(Endian::Big, s, n).1.buf == s.buf,
        get_bits_64(Endian::Big, s, n).1.index >= s.index,
        get_bits_64(Endian::Big, s, n).0 == be_bits(
            loaded(get_bits_64(Endian::Big, s, n).1),
            consumed(s),
            n,
        ),
        consumed(get_bits_64(Endian::Big, s, n).1) == min_int(
            consumed(s) + n,
            8 * get_bits_64(Endian::Big, s, n).1.index as int,
        ),
{
    let e = Endian::Big;
    let p = consumed(s);
    let l = s.left;
    if n == 0 {
    } else if l < n {
        let (ret, s1) = get_val(e, s, l);
        lemma_be_peek(s, l);
        lemma_be_skip(s, l);
        let s2 = refill64(e, s1);
        if can_refill(s1) {
            lemma_be_refill64(s1);
        }
        let m = (n - l) as nat;
        let (v, s3) = get_val(e, s2, m);
        lemma_be_peek(s2, m);
        lemma_be_skip(s2, m);
        let k = s.index as int;
        let k2 = s2.index as int;
        lemma_be_take(s.buf, k, p, l);
        lemma_be_take(s.buf, k2, p, l);
        lemma_be_bound(loaded(s2), p + l, m);
        lemma_be_bound(loaded(s), p, l);
        lemma_pow2_adds(l, m);
        lemma_pow2_pos(m);
        lemma_mul_inequality(ret as int, pow2(l) as int - 1, pow2(m) as int);
        assert((pow2(l) - 1) * pow2(m) == pow2(l) * pow2(m) - pow2(m)) by {
            lemma_mul_is_distributive_add(pow2(m) as int, pow2(l) as int, -1);
            lemma_mul_is_commutative(pow2(m) as int, pow2(l) as int);
            lemma_mul_is_commutative(pow2(m) as int, pow2(l) as int - 1);
        }
        assert(pow2(n) <= 0x1_0000_0000_0000_0000) by {
            lemma2_to64();
            if n < 64 {
                lemma_pow2_strictly_increases(n, 64);
            }
        }
        if m == 64 {
            lemma_be_split(loaded(s2), p, l, m);
        } else {
            let m64 = m as u64;
            lemma_u64_pow2_no_overflow(m);
            lemma_u64_shl_is_mul(ret, m64);
            lemma_u64_shl_is_mul(1u64, m64);
            assert(v | (ret << m64) == v + (ret << m64)) by (bit_vector)
                requires
                    m64 < 64,
                    v < (1u64 << m64),
            ;
            lemma_be_split(loaded(s2), p, l, m);
        }
    } else {
        lemma_be_peek(s, n);
        lemma_be_skip(s, n);
        let v = peek(e, s, n);
        let n64 = n as u64;
        if n < 64 {
            assert(v | (0u64 << n64) == v) by (bit_vector)
                requires
                    n64 < 64,
            ;
        }
    }
}

/// Reader states whose cache holds the next `left` bits of the buffer's bit
/// stream.
pub open spec fn synced(e: Endian, s: BitState) -> bool {
    match e {
        Endian::Little => synced_le(s),
        Endian::Big => synced_be(s),
    }
}

/// Value of the `n` stream bits of `buf` from position `p`, in the reader's
/// bit order (the first bit read is the least significant one for `Little`,
/// the most significant one for `Big`).
pub open spec fn stream_bits(e: Endian, buf: Seq<u8>, p: int, n: nat) -> nat {
    match e {
        Endian::Little => le_bits(buf, p, n),
        Endian::Big => be_bits(buf, p, n),
    }
}

/// Bit `p` of the stream of `buf`, in the reader's bit order.
pub open spec fn stream_bit(e: Endian, buf: Seq<u8>, p: int) -> nat {
    match e {
        Endian::Little => bit_le(buf, p),
        Endian::Big => bit_be(buf, p),
    }
}

proof fn lemma_bound(e: Endian, buf: Seq<u8>, p: int, n: nat)
    ensures
        stream_bits(e, buf, p, n) < pow2(n),
{
    match e {
        Endian::Little => lemma_le_bound(buf, p, n),
        Endian::Big => lemma_be_bound(buf, p, n),
    }
}

proof fn lemma_take(e: Endian, buf: Seq<u8>, k: int, p: int, n: nat)
    requires
        0 <= k <= buf.len(),
    ensures
        p + n <= 8 * k ==> stream_bits(e, buf.take(k), p, n) == stream_bits(e, buf, p, n),
{
    match e {
        Endian::Little => lemma_le_take(buf, k, p, n),
        Endian::Big => lemma_be_take(buf, k, p, n),
    }
}

proof fn lemma_peek(e: Endian, s: BitState, n: nat)
    requires
        synced(e, s),
        get_val_ok(e, n),
    ensures
        peek(e, s, n) == stream_bits(e, loaded(s), consumed(s), n),
{
    match e {
        Endian::Little => lemma_le_peek(s, n),
        Endian::Big => lemma_be_peek(s, n),
    }
}

proof fn lemma_skip(e: Endian, s: BitState, n: nat)
    requires
        synced(e, s),
        n <= 64,
    ensures
        synced(e, skip_rem(e, s, n)),
        skip_rem(e, s, n).index == s.index,
        skip_rem(e, s, n).buf == s.buf,
        consumed(skip_rem(e, s, n)) == min_int(consumed(s) + n, 8 * s.index as int),
{
    match e {
        Endian::Little => lemma_le_skip(s, n),
        Endian::Big => lemma_be_skip(s, n),
    }
}

proof fn lemma_refill64(e: Endian, s: BitState)
    requires
        can_refill(s),
    ensures
        synced(e, refill64(e, s)),
        consumed(refill64(e, s)) == 8 * s.index,
{
    match e {
        Endian::Little => lemma_le_refill64(s),
        Endian::Big => lemma_be_refill64(s),
    }
}

proof fn lemma_refill32(e: Endian, s: BitState)
    requires
        synced(e, s),
        s.left <= 32,
        can_refill(s),
    ensures
        synced(e, refill32(e, s)),
        consumed(refill32(e, s)) == consumed(s),
{
    match e {
        Endian::Little => lemma_le_refill32(s),
        Endian::Big => lemma_be_refill32(s),
    }
}

/// A new reader is synced and has consumed nothing.
pub proof fn lemma_new(e: Endian, buf: Seq<u8>)
    ensures
        synced(e, new_state(e, buf)),
        consumed(new_state(e, buf)) == 0,
        new_state(e, buf).buf == buf,
{
    let s = empty_state(buf);
    if can_refill(s) {
        lemma_refill64(e, s);
    } else {
        assert(le_bits(buf, 0, 0) == 0);
        assert(be_bits(buf, 0, 0) * pow2(64) == 0 * pow2(64));
        assert(0 * pow2(64) == 0);
    }
}

/// `get_bits_64(n)` on a synced reader returns the next `n` bits of the
/// stream (the buffer's bits when the reader could load them, zeros past the
/// last loaded byte), and moves past them.
pub proof fn lemma_get_bits_64(e: Endian, s: BitState, n: nat)
    requires
        synced(e, s),
        get_bits_64_ok(e, s, n),
        n <= 64,
    ensures
        synced(e, get_bits_64(e, s, n).1),
        get_bits_64(e, s, n).1.buf == s.buf,
        get_bits_64(e, s, n).0 == stream_bits(e, loaded(get_bits_64(e, s, n).1), consumed(s), n),
        consumed(s) + n <= 8 * get_bits_64(e, s, n).1.index ==> get_bits_64(e, s, n).0
            == stream_bits(e, s.buf, consumed(s), n),
        consumed(get_bits_64(e, s, n).1) == min_int(
            consumed(s) + n,
            8 * get_bits_64(e, s, n).1.index as int,
        ),
{
    match e {
        Endian::Little => lemma_le_get_bits_64(s, n),
        Endian::Big => lemma_be_get_bits_64(s, n),
    }
    let s2 = get_bits_64(e, s, n).1;
    lemma_take(e, s.buf, s2.index as int, consumed(s), n);
}

/// `get_bits_64(n)` on a synced reader returns the buffer's own next `n`
/// bits, and moves past exactly them, whenever the pending bits hold them or
/// the buffer still holds eight bytes past those already loaded: a reader
/// loads every full eight-byte window of its buffer.
pub proof fn lemma_get_bits_64_reads_buffer(e: Endian, s: BitState, n: nat)
    requires
        synced(e, s),
        get_bits_64_ok(e, s, n),
        n <= 64,
        n <= s.left || s.index + 8 <= s.buf.len(),
    ensures
        get_bits_64(e, s, n).0 == stream_bits(e, s.buf, consumed(s), n),
        consumed(get_bits_64(e, s, n).1) == consumed(s) + n,
{
    lemma_get_bits_64(e, s, n);
    let s2 = get_bits_64(e, s, n).1;
    if n > 0 && s.left < n {
        let (ret, s1) = get_val(e, s, s.left);
        lemma_skip(e, s, s.left);
        assert(s1.index == s.index);
        assert(s2.index == s.index + 8);
    }
    assert(consumed(s) + n <= 8 * s2.index);
}

/// A reader over a buffer of at least eight bytes reads the buffer's own
/// first `n` bits (up to 64), in its bit order.
pub proof fn lemma_new_reads_buffer(e: Endian, buf: Seq<u8>, n: nat)
    requires
        8 <= buf.len() <= usize::MAX,
        n <= 64,
    ensures
        new_state(e, buf).left == 64,
        get_bits_64(e, new_state(e, buf), n).0 == stream_bits(e, buf, 0, n),
{
    lemma_new(e, buf);
    let s = new_state(e, buf);
    assert(s.left == 64);
    lemma_get_bits_64_reads_buffer(e, s, n);
}

/// `get_bits_32(n)`, for `n <= 32`, on a synced reader returns the buffer's
/// own next `n` bits, and moves past exactly them, whenever more than `n`
/// bits are pending or the buffer still holds eight bytes past those
/// already loaded.
pub proof fn lemma_get_bits_32_reads_buffer(e: Endian, s: BitState, n: nat)
    requires
        synced(e, s),
        get_bits_32_ok(e, s, n),
        n <= 32,
        n < s.left || s.index + 8 <= s.buf.len(),
    ensures
        get_bits_32(e, s, n).0 == stream_bits(e, s.buf, consumed(s), n),
        consumed(get_bits_32(e, s, n).1) == consumed(s) + n,
{
    lemma_get_bits_32(e, s, n);
    let s2 = get_bits_32(e, s, n).1;
    if n > 0 {
        let s1 = if s.left <= n { refill32(e, s) } else { s };
        if s.left <= n && can_refill(s) {
            lemma_refill32(e, s);
        }
        lemma_skip(e, s1, n);
        assert(s2.index == s1.index);
    }
    assert(consumed(s) + n <= 8 * s2.index);
}

/// `get_bits_32(n)`, for `n <= 32`, on a synced reader returns the next `n`
/// bits of the stream and moves past them.
pub proof fn lemma_get_bits_32(e: Endian, s: BitState, n: nat)
    requires
        synced(e, s),
        get_bits_32_ok(e, s, n),
        n <= 32,
    ensures
        synced(e, get_bits_32(e, s, n).1),
        get_bits_32(e, s, n).1.buf == s.buf,
        get_bits_32(e, s, n).0 == stream_bits(e, loaded(get_bits_32(e, s, n).1), consumed(s), n),
        consumed(s) + n <= 8 * get_bits_32(e, s, n).1.index ==> get_bits_32(e, s, n).0
            == stream_bits(e, s.buf, consumed(s), n),
        consumed(get_bits_32(e, s, n).1) == min_int(
            consumed(s) + n,
            8 * get_bits_32(e, s, n).1.index as int,
        ),
{
    if n > 0 {
        let s1 = if s.left <= n { refill32(e, s) } else { s };
        if s.left <= n && can_refill(s) {
            lemma_refill32(e, s);
        }
        lemma_peek(e, s1, n);
        lemma_skip(e, s1, n);
        let v = peek(e, s1, n);
        lemma_bound(e, loaded(s1), consumed(s), n);
        lemma2_to64();
        if n < 32 {
            lemma_pow2_strictly_increases(n, 32);
        }
        assert(v < 0x1_0000_0000);
        let s2 = get_bits_32(e, s, n).1;
        lemma_take(e, s.buf, s2.index as int, consumed(s), n);
    }
}

/// `get_bit` on a synced reader returns whether the next stream bit is set,
/// and moves past it.
pub proof fn lemma_get_bit(e: Endian, s: BitState)
    requires
        synced(e, s),
        get_bit_ok(e, s),
    ensures
        synced(e, get_bit(e, s).1),
        get_bit(e, s).1.buf == s.buf,
        get_bit(e, s).0 == (stream_bit(e, loaded(get_bit(e, s).1), consumed(s)) == 1),
        consumed(s) < 8 * get_bit(e, s).1.index ==> get_bit(e, s).0 == (stream_bit(
            e,
            s.buf,
            consumed(s),
        ) == 1),
        consumed(get_bit(e, s).1) == min_int(consumed(s) + 1, 8 * get_bit(e, s).1.index as int),
{
    let s1 = if s.left == 0 { refill64(e, s) } else { s };
    if s.left == 0 && can_refill(s) {
        lemma_refill64(e, s);
    }
    lemma_peek(e, s1, 1);
    lemma_skip(e, s1, 1);
    let p = consumed(s);
    let s2 = get_bit(e, s).1;
    assert(le_bits(loaded(s1), p, 1) == bit_le(loaded(s1), p) + 2 * le_bits(loaded(s1), p + 1, 0));
    assert(be_bits(loaded(s1), p, 1) == 2 * be_bits(loaded(s1), p, 0) + bit_be(loaded(s1), p));
    lemma_take(e, s.buf, s2.index as int, p, 1);
    assert(le_bits(s.buf, p, 1) == bit_le(s.buf, p) + 2 * le_bits(s.buf, p + 1, 0));
    assert(be_bits(s.buf, p, 1) == 2 * be_bits(s.buf, p, 0) + bit_be(s.buf, p));
    assert(stream_bits(e, loaded(s1), p, 1) == stream_bit(e, loaded(s1), p));
    assert(stream_bits(e, s.buf, p, 1) == stream_bit(e, s.buf, p));
    lemma_bound(e, loaded(s1), p, 1);
    lemma2_to64();
    assert(loaded(s1) == loaded(s2));
    let v = peek(e, s1, 1);
    assert(v == stream_bit(e, loaded(s1), p));
    assert(v < 2);
}

/// `skip_bits(n)` on a synced reader moves `n` bits forward, as long as the
/// pending bits cover them or the buffer still has eight bytes where the skip
/// lands.
pub proof fn lemma_skip_bits(e: Endian, s: BitState, n: nat)
    requires
        synced(e, s),
        skip_bits_ok(s, n),
        n <= s.left || skip_index(s, n) + 8 <= s.buf.len(),
    ensures
        synced(e, skip_bits(e, s, n)),
        skip_bits(e, s, n).buf == s.buf,
        consumed(skip_bits(e, s, n)) == consumed(s) + n,
{
    if n <= s.left {
        lemma_skip(e, s, n);
    } else {
        let m = skip_tail(s, n);
        let si = BitState { index: skip_index(s, n), ..s };
        let s1 = skip_rem(e, si, m);
        assert(can_refill(s1));
        lemma_refill64(e, s1);
        let s2 = refill64(e, s1);
        lemma_skip(e, s2, m);
        let n1 = (n - s.left) as nat;
        if n1 > 64 {
            assert(8 * (n1 / 8) + n1 % 8 == n1);
        }
    }
}

/// `align_bits` on a synced reader drops the pending bits that do not make a
/// whole byte: afterwards the consumed count is a multiple of eight.
pub proof fn lemma_align_bits(e: Endian, s: BitState)
    requires
        synced(e, s),
        skip_bits_ok(s, s.left % 8),
    ensures
        synced(e, align_bits(e, s)),
        consumed(align_bits(e, s)) == consumed(s) + s.left % 8,
        consumed(align_bits(e, s)) % 8 == 0,
{
    let l = s.left;
    lemma_skip(e, s, l % 8);
    assert(l == 8 * (l / 8) + l % 8);
    assert(8 * s.index - l + l % 8 == 8 * (s.index - l / 8));
}

/// On a synced reader, the consumed and available bit counts add up to the
/// buffer's bits.
pub proof fn lemma_counts(e: Endian, s: BitState)
    requires
        synced(e, s),
    ensures
        consumed(s) + available(s) == 8 * s.buf.len(),
        0 <= consumed(s) <= 8 * s.buf.len(),
{
}

} // verus!
