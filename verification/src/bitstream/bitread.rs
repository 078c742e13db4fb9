//! Bit readers over byte buffers, in little- and big-endian bit order.
//!
//! A reader keeps a 64-bit cache of pending bits, refilled from the buffer
//! eight (or four) bytes at a time.  The effect of every operation on the
//! reader's abstract state is the matching function of `bitmodel`; the laws
//! of `bitlaws` say what those effects mean for the bits of the buffer.
use vstd::prelude::*;
use crate::bitstream::bitmodel::{
    Endian, BitState, peek, peek_ok, merge, merge_ok, build_cache, build_cache_ok, skip_rem,
    skip_rem_ok, can_refill, can_refill_ok, fill32, fill64, refill32, refill32_ok, refill64,
    refill64_ok, get_val, get_val_ok, new_state, consumed, consumed_ok, available, available_ok,
    skip_bits, skip_bits_ok, get_bit, get_bit_ok, get_bits_64, get_bits_64_ok, get_bits_32,
    get_bits_32_ok, align_bits,
};
use crate::bitstream::byteread::{get_u32l, get_u32b, get_u64l, get_u64b};

verus! {

/// The abstract view shared by the bit reader traits.
pub trait BitReaderModel {
    /// Bit order of the reader.
    spec fn endian() -> Endian;

    /// Abstract state of the reader.
    spec fn state(&self) -> BitState;
}

/// Used to interact with a sequence of 64 bits, taking into account the
/// relative endianness.
///
/// This trait also offers some methods to read and remove bits from an internal
/// 64-bit cache.
pub trait BitReadEndian: BitReaderModel + Sized {
    /// Peeks n bits from the cache.
    fn peek_val(&mut self, n: usize) -> (r: u64)
        requires
            peek_ok(Self::endian(), n as nat),
        ensures
            r == peek(Self::endian(), old(self).state(), n as nat),
            final(self).state() == old(self).state(),
    ;

    /// Merges two sequences of bits together.
    fn merge_val(msp: u64, lsp: u64, msb: usize, lsb: usize) -> (r: u64)
        requires
            merge_ok(Self::endian(), msb as nat, lsb as nat),
        ensures
            r == merge(Self::endian(), msp, lsp, msb as nat, lsb as nat),
    ;

    /// Builds a new cache.
    fn build_cache(cache: u64, refill: u64, cache_size: usize) -> (r: u64)
        requires
            build_cache_ok(Self::endian(), cache_size as nat),
        ensures
            r == build_cache(Self::endian(), cache, refill, cache_size as nat),
    ;

    /// Removes n bits from the cache.
    fn skip_rem(&mut self, n: usize)
        requires
            skip_rem_ok(n as nat),
        ensures
            final(self).state() == skip_rem(Self::endian(), old(self).state(), n as nat),
    ;
}

/// Used to extract a sequence of bits from an internal buffer.
pub trait BitReadFill: BitReaderModel {
    /// Tells if it is still possible to read bits from an internal buffer.
    fn can_refill(&self) -> (r: bool)
        requires
            can_refill_ok(self.state()),
        ensures
            r == can_refill(self.state()),
    ;

    /// Gets a 32-bits sequence from an internal buffer.
    fn fill32(&self) -> (r: u64)
        requires
            self.state().index + 4 <= self.state().buf.len(),
        ensures
            r == fill32(Self::endian(), self.state()),
    ;

    /// Gets a 64-bits sequence from an internal buffer.
    fn fill64(&self) -> (r: u64)
        requires
            self.state().index + 8 <= self.state().buf.len(),
        ensures
            r == fill64(Self::endian(), self.state()),
    ;
}

/// Used to interact with an internal buffer.
pub trait BitReadInternal: BitReadEndian + BitReadFill {
    /// Gets the number of bits left in an internal buffer.
    fn left(&self) -> (r: usize)
        ensures
            r == self.state().left,
    ;

    /// Extracts a 32-bit sequence from an internal buffer and saves it
    /// within an internal cache.
    fn refill32(&mut self)
        requires
            refill32_ok(Self::endian(), old(self).state()),
        ensures
            final(self).state() == refill32(Self::endian(), old(self).state()),
    ;

    /// Extracts a 64-bit sequence from an internal buffer and saves it
    /// within an internal cache.
    fn refill64(&mut self)
        requires
            refill64_ok(old(self).state()),
        ensures
            final(self).state() == refill64(Self::endian(), old(self).state()),
    ;

    /// Returns n bits from an internal buffer.
    fn get_val(&mut self, n: usize) -> (r: u64)
        requires
            get_val_ok(Self::endian(), n as nat),
        ensures
            (r, final(self).state()) == get_val(Self::endian(), old(self).state(), n as nat),
    {
        let ret = self.peek_val(n);
        self.skip_rem(n);
        ret
    }
}

/// Used to define a bitreader.
pub trait BitRead<'a>: BitReadInternal + Copy {
    /// Creates a new bitreader with an internal buffer associated to it.
    fn new(buffer: &'a [u8]) -> (r: Self)
        ensures
            r.state() == new_state(Self::endian(), buffer@),
    ;

    /// Tells the number of bits read from the internal buffer.
    fn consumed(&self) -> (r: usize)
        requires
            consumed_ok(self.state()),
        ensures
            r == consumed(self.state()),
    ;

    /// Tells the number of bits still available in the internal buffer.
    fn available(&self) -> (r: usize)
        requires
            available_ok(self.state()),
        ensures
            r == available(self.state()),
    ;

    /// Discard a certain number of bits from the internal buffer.
    fn skip_bits(&mut self, size: usize)
        requires
            skip_bits_ok(old(self).state(), size as nat),
        ensures
            final(self).state() == skip_bits(Self::endian(), old(self).state(), size as nat),
    ;

    /// Returns a single bit from the internal buffer.
    fn get_bit(&mut self) -> (r: bool)
        requires
            get_bit_ok(Self::endian(), old(self).state()),
        ensures
            (r, final(self).state()) == get_bit(Self::endian(), old(self).state()),
    {
        if self.left() == 0 {
            self.refill64();
        }
        self.get_val(1) != 0
    }

    /// Returns n bits from the internal buffer as a 64-bit sequence.
    fn get_bits_64(&mut self, n: usize) -> (r: u64)
        requires
            get_bits_64_ok(Self::endian(), old(self).state(), n as nat),
        ensures
            (r, final(self).state()) == get_bits_64(Self::endian(), old(self).state(), n as nat),
    {
        let mut n = n;
        let mut left: usize = 0;
        let mut ret: u64 = 0;

        if n == 0 {
            return 0;
        }

        if self.left() < n {
            n -= self.left();
            left = self.left();
            ret = self.get_val(left);
            self.refill64();
        }

        let v = self.get_val(n);
        Self::merge_val(v, ret, left, n)
    }

    /// Returns n bits from the internal buffer as a 32-bit sequence.
    fn get_bits_32(&mut self, n: usize) -> (r: u32)
        requires
            get_bits_32_ok(Self::endian(), old(self).state(), n as nat),
        ensures
            (r, final(self).state()) == get_bits_32(Self::endian(), old(self).state(), n as nat),
    {
        if n == 0 {
            return 0;
        }

        if self.left() <= n {
            self.refill32();
        }

        self.get_val(n) as u32
    }

    /// Peeks the next bit present in the internal buffer.
    fn peek_bit(&mut self) -> (r: bool)
        requires
            get_bit_ok(Self::endian(), old(self).state()),
        ensures
            r == get_bit(Self::endian(), old(self).state()).0,
            final(self).state() == old(self).state(),
    {
        let mut tmp = *self;
        tmp.get_bit()
    }

    /// Peeks the next 32-bit sequence present in the internal buffer.
    fn peek_bits_32(&mut self, n: usize) -> (r: u32)
        requires
            get_bits_32_ok(Self::endian(), old(self).state(), n as nat),
        ensures
            r == get_bits_32(Self::endian(), old(self).state(), n as nat).0,
            final(self).state() == old(self).state(),
    {
        let mut tmp = *self;
        tmp.get_bits_32(n)
    }

    /// Peeks the next 64-bit sequence present in the internal buffer.
    fn peek_bits_64(&self, n: usize) -> (r: u64)
        requires
            get_bits_64_ok(Self::endian(), self.state(), n as nat),
        ensures
            r == get_bits_64(Self::endian(), self.state(), n as nat).0,
    {
        let mut tmp = *self;
        tmp.get_bits_64(n)
    }

    /// Alignes the bits present in the internal buffer.
    fn align_bits(&mut self)
        requires
            skip_bits_ok(old(self).state(), old(self).state().left % 8),
        ensures
            final(self).state() == align_bits(Self::endian(), old(self).state()),
    {
        let l = self.left();
        let left = l & 7;
        assert(l & 7 == l % 8) by (bit_vector);
        self.skip_bits(left);
    }
}


/// A little-endian reader.
///
/// It contains the data structures necessary to create a little-endian reader.
#[derive(Debug, Clone, Copy)]
pub struct BitReadLE<'a> {
    /// Read buffer.
    buffer: &'a [u8],
    index: usize,
    cache: u64,
    left: usize,
}

impl<'a> BitReadLE<'a> {
    /// Builds a reader in the given state, with nothing loaded from `buffer`
    /// unless `index`, `cache` and `left` say so.
    pub fn from_state(buffer: &'a [u8], index: usize, cache: u64, left: usize) -> (r: Self)
        ensures
            r.state() == (BitState { buf: buffer@, index: index as nat, cache, left: left as nat }),
    {
        BitReadLE { buffer, index, cache, left }
    }
}

impl<'a> BitReaderModel for BitReadLE<'a> {
    open spec fn endian() -> Endian {
        Endian::Little
    }

    closed spec fn state(&self) -> BitState {
        BitState {
            buf: self.buffer@,
            index: self.index as nat,
            cache: self.cache,
            left: self.left as nat,
        }
    }
}

impl<'a> BitReadEndian for BitReadLE<'a> {
    fn peek_val(&mut self, n: usize) -> (r: u64) {
        if n >= 64 {
            return self.cache;
        }
        let k = n as u64;
        assert(1u64 << k >= 1) by (bit_vector)
            requires
                k < 64,
        ;
        self.cache & ((1u64 << k) - 1)
    }

    fn merge_val(msp: u64, lsp: u64, msb: usize, lsb: usize) -> (r: u64) {
        if msb >= 64 {
            lsp
        } else {
            (msp << (msb as u64)) | lsp
        }
    }

    fn build_cache(cache: u64, refill: u64, cache_size: usize) -> (r: u64) {
        cache | (refill << (cache_size as u64))
    }

    fn skip_rem(&mut self, n: usize) {
        if n >= 64 {
            self.cache = 0;
        } else {
            self.cache = self.cache >> (n as u64);
        }
        self.left = self.left.saturating_sub(n);
    }
}

impl<'a> BitReadFill for BitReadLE<'a> {
    fn can_refill(&self) -> (r: bool) {
        self.index + 8 <= self.buffer.len()
    }

    fn fill32(&self) -> (r: u64) {
        let rest = &self.buffer[self.index..self.buffer.len()];
        assert(rest@ =~= self.buffer@.skip(self.index as int));
        get_u32l(rest) as u64
    }

    fn fill64(&self) -> (r: u64) {
        let rest = &self.buffer[self.index..self.buffer.len()];
        assert(rest@ =~= self.buffer@.skip(self.index as int));
        get_u64l(rest)
    }
}

impl<'a> BitReadInternal for BitReadLE<'a> {
    fn left(&self) -> (r: usize) {
        self.left
    }

    fn refill32(&mut self) {
        if !self.can_refill() {
            return;
        }
        let val = self.fill32();
        self.cache = Self::build_cache(self.cache, val, self.left);
        self.index += 4;
        self.left += 32;
    }

    fn refill64(&mut self) {
        if !self.can_refill() {
            return;
        }
        self.cache = self.fill64();
        self.index += 8;
        self.left = 64;
    }
}

impl<'a> BitRead<'a> for BitReadLE<'a> {
    fn new(buffer: &'a [u8]) -> (r: Self) {
        let mut reader = BitReadLE { buffer, index: 0, cache: 0, left: 0 };
        reader.refill64();
        reader
    }

    fn consumed(&self) -> (r: usize) {
        self.index * 8 - self.left
    }

    fn available(&self) -> (r: usize) {
        (self.buffer.len() - self.index) * 8 + self.left
    }

    fn skip_bits(&mut self, size: usize) {
        let mut n = size;
        if self.left < n {
            n -= self.left;
            if n > 64 {
                let skip = n / 8;
                n -= skip * 8;
                self.index += skip;
            }
            self.skip_rem(n);
            self.refill64();
        }
        self.skip_rem(n);
    }
}

/// A big-endian reader.
///
/// It contains the data structures necessary to create a big-endian reader.
#[derive(Debug, Clone, Copy)]
pub struct BitReadBE<'a> {
    /// Read buffer.
    buffer: &'a [u8],
    index: usize,
    cache: u64,
    left: usize,
}

impl<'a> BitReadBE<'a> {
    /// Builds a reader in the given state, with nothing loaded from `buffer`
    /// unless `index`, `cache` and `left` say so.
    pub fn from_state(buffer: &'a [u8], index: usize, cache: u64, left: usize) -> (r: Self)
        ensures
            r.state() == (BitState { buf: buffer@, index: index as nat, cache, left: left as nat }),
    {
        BitReadBE { buffer, index, cache, left }
    }
}

impl<'a> BitReaderModel for BitReadBE<'a> {
    open spec fn endian() -> Endian {
        Endian::Big
    }

    closed spec fn state(&self) -> BitState {
        BitState {
            buf: self.buffer@,
            index: self.index as nat,
            cache: self.cache,
            left: self.left as nat,
        }
    }
}

impl<'a> BitReadEndian for BitReadBE<'a> {
    fn peek_val(&mut self, n: usize) -> (r: u64) {
        if n == 0 {
            0
        } else {
            self.cache >> ((64 - n) as u64)
        }
    }

    fn merge_val(msp: u64, lsp: u64, msb: usize, lsb: usize) -> (r: u64) {
        if lsb >= 64 {
            msp
        } else {
            msp | (lsp << (lsb as u64))
        }
    }

    fn build_cache(cache: u64, refill: u64, cache_size: usize) -> (r: u64) {
        cache | (refill << ((32 - cache_size) as u64))
    }

    fn skip_rem(&mut self, n: usize) {
        if n >= 64 {
            self.cache = 0;
        } else {
            self.cache = self.cache << (n as u64);
        }
        self.left = self.left.saturating_sub(n);
    }
}

impl<'a> BitReadFill for BitReadBE<'a> {
    fn can_refill(&self) -> (r: bool) {
        self.index + 8 <= self.buffer.len()
    }

    fn fill32(&self) -> (r: u64) {
        let rest = &self.buffer[self.index..self.buffer.len()];
        assert(rest@ =~= self.buffer@.skip(self.index as int));
        get_u32b(rest) as u64
    }

    fn fill64(&self) -> (r: u64) {
        let rest = &self.buffer[self.index..self.buffer.len()];
        assert(rest@ =~= self.buffer@.skip(self.index as int));
        get_u64b(rest)
    }
}

impl<'a> BitReadInternal for BitReadBE<'a> {
    fn left(&self) -> (r: usize) {
        self.left
    }

    fn refill32(&mut self) {
        if !self.can_refill() {
            return;
        }
        let val = self.fill32();
        self.cache = Self::build_cache(self.cache, val, self.left);
        self.index += 4;
        self.left += 32;
    }

    fn refill64(&mut self) {
        if !self.can_refill() {
            return;
        }
        self.cache = self.fill64();
        self.index += 8;
        self.left = 64;
    }
}

impl<'a> BitRead<'a> for BitReadBE<'a> {
    fn new(buffer: &'a [u8]) -> (r: Self) {
        let mut reader = BitReadBE { buffer, index: 0, cache: 0, left: 0 };
        reader.refill64();
        reader
    }

    fn consumed(&self) -> (r: usize) {
        self.index * 8 - self.left
    }

    fn available(&self) -> (r: usize) {
        (self.buffer.len() - self.index) * 8 + self.left
    }

    fn skip_bits(&mut self, size: usize) {
        let mut n = size;
        if self.left < n {
            n -= self.left;
            if n > 64 {
                let skip = n / 8;
                n -= skip * 8;
                self.index += skip;
            }
            self.skip_rem(n);
            self.refill64();
        }
        self.skip_rem(n);
    }
}

} // verus!
