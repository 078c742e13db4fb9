//! The state machine of the bit readers: a 64-bit cache filled from a byte
//! buffer, described as pure functions of the reader's state.
//!
//! Each function below is the effect of one reader operation on the state
//! `(buffer, index, cache, left)`, where `index` is the number of buffer bytes
//! already moved into the cache and `left` the number of cache bits not yet
//! read.  The `*_ok` predicates say on which states an operation runs without
//! an arithmetic fault (an overflow or an underflow).
use vstd::prelude::*;
use crate::bitstream::endian::{le32, be32, le64, be64};

verus! {

/// Bit order of a reader.
#[derive(PartialEq, Eq, Structural, Clone, Copy, Debug)]
pub enum Endian {
    /// Least significant bit of each byte first.
    Little,
    /// Most significant bit of each byte first.
    Big,
}

/// Abstract state of a bit reader.
pub ghost struct BitState {
    /// The whole input buffer.
    pub buf: Seq<u8>,
    /// Number of buffer bytes already loaded into the cache.
    pub index: nat,
    /// The cache.
    pub cache: u64,
    /// Number of cache bits not yet consumed.
    pub left: nat,
}

/// States whose counters fit the machine words of a reader.
pub open spec fn fits(s: BitState) -> bool {
    &&& s.index <= usize::MAX
    &&& s.left <= usize::MAX
    &&& s.buf.len() <= usize::MAX
}

/// State of a freshly built reader before its first refill.
pub open spec fn empty_state(buf: Seq<u8>) -> BitState {
    BitState { buf, index: 0, cache: 0, left: 0 }
}

/// Number of bits consumed so far.
pub open spec fn consumed(s: BitState) -> int {
    8 * s.index - s.left
}

/// Number of bits that can still be read.
pub open spec fn available(s: BitState) -> int {
    8 * (s.buf.len() - s.index) + s.left
}

/// `index + 8` does not overflow.
pub open spec fn can_refill_ok(s: BitState) -> bool {
    s.index + 8 <= usize::MAX
}

/// Eight more bytes can be loaded into the cache.
pub open spec fn can_refill(s: BitState) -> bool {
    s.index + 8 <= s.buf.len()
}

/// Value of the next four buffer bytes in the reader's byte order.
pub open spec fn fill32(e: Endian, s: BitState) -> u64 {
    match e {
        Endian::Little => le32(s.buf.skip(s.index as int)) as u64,
        Endian::Big => be32(s.buf.skip(s.index as int)) as u64,
    }
}

/// Value of the next eight buffer bytes in the reader's byte order.
pub open spec fn fill64(e: Endian, s: BitState) -> u64 {
    match e {
        Endian::Little => le64(s.buf.skip(s.index as int)) as u64,
        Endian::Big => be64(s.buf.skip(s.index as int)) as u64,
    }
}

/// The next `n` cache bits, without consuming them; all of the cache for
/// `n == 64`, none for `n == 0`.
pub open spec fn peek(e: Endian, s: BitState, n: nat) -> u64 {
    match e {
        Endian::Little => if n >= 64 {
            s.cache
        } else {
            s.cache & (((1u64 << n as u64) - 1) as u64)
        },
        Endian::Big => if n == 0 {
            0
        } else {
            s.cache >> ((64 - n) as u64)
        },
    }
}

/// `peek` is defined: at most the 64 bits of the cache are asked for.
pub open spec fn peek_ok(e: Endian, n: nat) -> bool {
    n <= 64
}

/// Drops `n` bits from the cache; the pending count saturates at zero.
pub open spec fn skip_rem(e: Endian, s: BitState, n: nat) -> BitState {
    BitState {
        cache: if n >= 64 {
            0
        } else {
            match e {
                Endian::Little => s.cache >> n as u64,
                Endian::Big => s.cache << n as u64,
            }
        },
        left: if s.left >= n { (s.left - n) as nat } else { 0 },
        ..s
    }
}

/// `skip_rem` is defined: at most the 64 bits of the cache are dropped.
pub open spec fn skip_rem_ok(n: nat) -> bool {
    n <= 64
}

/// Joins two bit groups: `msp` read after `lsp`, the two made of `lsb` and
/// `msb` bits; a group shifted by 64 bits or more leaves nothing.
pub open spec fn merge(e: Endian, msp: u64, lsp: u64, msb: nat, lsb: nat) -> u64 {
    match e {
        Endian::Little => if msb >= 64 {
            lsp
        } else {
            (msp << msb as u64) | lsp
        },
        Endian::Big => if lsb >= 64 {
            msp
        } else {
            msp | (lsp << lsb as u64)
        },
    }
}

/// `merge` is defined: the shift is at most 64 bits.
pub open spec fn merge_ok(e: Endian, msb: nat, lsb: nat) -> bool {
    match e {
        Endian::Little => msb <= 64,
        Endian::Big => lsb <= 64,
    }
}

/// Adds 32 fresh bits `refill` behind the `cache_size` pending bits of `cache`.
pub open spec fn build_cache(e: Endian, cache: u64, refill: u64, cache_size: nat) -> u64 {
    match e {
        Endian::Little => cache | (refill << cache_size as u64),
        Endian::Big => cache | (refill << (32 - cache_size) as u64),
    }
}

/// `build_cache` is defined.
pub open spec fn build_cache_ok(e: Endian, cache_size: nat) -> bool {
    match e {
        Endian::Little => cache_size < 64,
        Endian::Big => cache_size <= 32,
    }
}

/// Loads four more bytes behind the pending bits, when eight are available.
pub open spec fn refill32(e: Endian, s: BitState) -> BitState {
    if can_refill(s) {
        BitState {
            cache: build_cache(e, s.cache, fill32(e, s), s.left),
            index: s.index + 4,
            left: s.left + 32,
            ..s
        }
    } else {
        s
    }
}

/// `refill32` is defined.
pub open spec fn refill32_ok(e: Endian, s: BitState) -> bool {
    &&& can_refill_ok(s)
    &&& can_refill(s) ==> build_cache_ok(e, s.left)
}

/// Replaces the cache with the next eight bytes, when they are available.
pub open spec fn refill64(e: Endian, s: BitState) -> BitState {
    if can_refill(s) {
        BitState { cache: fill64(e, s), index: s.index + 8, left: 64, ..s }
    } else {
        s
    }
}

/// `refill64` is defined.
pub open spec fn refill64_ok(s: BitState) -> bool {
    can_refill_ok(s)
}

/// Reads `n` cache bits.
pub open spec fn get_val(e: Endian, s: BitState, n: nat) -> (u64, BitState) {
    (peek(e, s, n), skip_rem(e, s, n))
}

/// `get_val` is defined.
pub open spec fn get_val_ok(e: Endian, n: nat) -> bool {
    peek_ok(e, n) && skip_rem_ok(n)
}

/// State after a fresh reader's first refill.
pub open spec fn new_state(e: Endian, buf: Seq<u8>) -> BitState {
    refill64(e, empty_state(buf))
}

/// Reads one bit, refilling first when the cache is empty.
pub open spec fn get_bit(e: Endian, s: BitState) -> (bool, BitState) {
    let s1 = if s.left == 0 { refill64(e, s) } else { s };
    let (v, s2) = get_val(e, s1, 1);
    (v != 0, s2)
}

/// `get_bit` is defined.
pub open spec fn get_bit_ok(e: Endian, s: BitState) -> bool {
    &&& s.left == 0 ==> refill64_ok(s)
    &&& get_val_ok(e, 1)
}

/// Reads `n` bits: first the pending ones, then, when they are not enough, the
/// rest from a refilled cache.
pub open spec fn get_bits_64(e: Endian, s: BitState, n: nat) -> (u64, BitState) {
    if n == 0 {
        (0, s)
    } else if s.left < n {
        let l = s.left;
        let (ret, s1) = get_val(e, s, l);
        let s2 = refill64(e, s1);
        let (v, s3) = get_val(e, s2, (n - l) as nat);
        (merge(e, v, ret, l, (n - l) as nat), s3)
    } else {
        let (v, s1) = get_val(e, s, n);
        (merge(e, v, 0, 0, n), s1)
    }
}

/// `get_bits_64` is defined.
pub open spec fn get_bits_64_ok(e: Endian, s: BitState, n: nat) -> bool {
    if n == 0 {
        true
    } else if s.left < n {
        &&& get_val_ok(e, s.left)
        &&& refill64_ok(s)
        &&& get_val_ok(e, (n - s.left) as nat)
        &&& merge_ok(e, s.left, (n - s.left) as nat)
    } else {
        get_val_ok(e, n) && merge_ok(e, 0, n)
    }
}

/// Reads `n` bits, topping the cache up with 32 bits first when it holds no
/// more than `n`, and keeps the low 32 bits of the result.
pub open spec fn get_bits_32(e: Endian, s: BitState, n: nat) -> (u32, BitState) {
    if n == 0 {
        (0, s)
    } else {
        let s1 = if s.left <= n { refill32(e, s) } else { s };
        let (v, s2) = get_val(e, s1, n);
        (v as u32, s2)
    }
}

/// `get_bits_32` is defined.
pub open spec fn get_bits_32_ok(e: Endian, s: BitState, n: nat) -> bool {
    n == 0 || ((s.left <= n ==> refill32_ok(e, s)) && get_val_ok(e, n))
}

/// Byte position reached by `skip_bits(n)` once the pending bits are dropped.
pub open spec fn skip_index(s: BitState, n: nat) -> nat {
    let n1 = (n - s.left) as nat;
    if n1 > 64 {
        s.index + n1 / 8
    } else {
        s.index
    }
}

/// Bits still to drop by `skip_bits(n)` from the cache at `skip_index`.
pub open spec fn skip_tail(s: BitState, n: nat) -> nat {
    let n1 = (n - s.left) as nat;
    if n1 > 64 {
        n1 % 8
    } else {
        n1
    }
}

/// Discards `n` bits.
pub open spec fn skip_bits(e: Endian, s: BitState, n: nat) -> BitState {
    if s.left < n {
        let m = skip_tail(s, n);
        let s1 = skip_rem(e, BitState { index: skip_index(s, n), ..s }, m);
        let s2 = refill64(e, s1);
        skip_rem(e, s2, m)
    } else {
        skip_rem(e, s, n)
    }
}

/// `skip_bits` is defined.
pub open spec fn skip_bits_ok(s: BitState, n: nat) -> bool {
    if s.left < n {
        &&& skip_index(s, n) + 8 <= usize::MAX
        &&& skip_rem_ok(skip_tail(s, n))
    } else {
        skip_rem_ok(n)
    }
}

/// Drops the pending bits that do not make a whole byte.
pub open spec fn align_bits(e: Endian, s: BitState) -> BitState {
    skip_bits(e, s, s.left % 8)
}

/// `consumed` is defined.
pub open spec fn consumed_ok(s: BitState) -> bool {
    8 * s.index <= usize::MAX && s.left <= 8 * s.index
}

/// `available` is defined.
pub open spec fn available_ok(s: BitState) -> bool {
    s.index <= s.buf.len() && available(s) <= usize::MAX
}

} // verus!
