//! `AccReader` is like a `BufReader`, but supports partial consumption.
//!
//! The reader itself is held and handed back untouched: reading from it and
//! seeking it is left to the caller, which asks the `AccReader` what to do
//! (`read_plan`, `seek_buffered`, `prepare_fill`) and reports back what the
//! reader produced (`commit_fill`, `after_inner_seek`). The current buffer is
//! `current_slice`, and `consume` says how many bytes were used.
use vstd::prelude::*;
use crate::format::buffer::Buffered;

verus! {

/// Capacity of the internal buffer of `AccReader::new`.
pub const DEFAULT_CAPACITY: usize = 4096;

/// Where a seek starts from: the three origins of `std::io::SeekFrom`.
#[derive(Clone, Copy, Debug, PartialEq, Eq)]
pub enum SeekFrom {
    /// An offset from the start of the stream.
    Start(u64),
    /// An offset from the end of the stream.
    End(i64),
    /// An offset from the current position.
    Current(i64),
}

/// What remains of a seek once the buffered data has been consulted.
#[derive(Clone, Copy, Debug, PartialEq, Eq)]
pub enum SeekStep {
    /// The target lies within the buffered data: the seek is done, and the
    /// stream is at this position.
    Done(u64),
    /// The underlying reader has to seek to this position; then call
    /// `after_inner_seek` with the position it reports and refill.
    Inner(SeekFrom),
}

/// How a read of a given length is served.
#[derive(Clone, Copy, Debug, PartialEq, Eq)]
pub enum ReadPlan {
    /// Entirely from the buffered data (`take`).
    Buffered,
    /// The buffered data (`take`), then straight from the underlying reader,
    /// bypassing the buffer (`consume` what it gave, then
    /// `reset_buffer_position`).
    Direct,
    /// Refill the buffer first, then `take` from it.
    Refill,
}

/// The state of an `AccReader` apart from its reader: the internal buffer,
/// the bounds of the unread data in it, and the stream position of that data.
pub ghost struct AccView {
    pub buf: Seq<u8>,
    pub pos: nat,
    pub end: nat,
    pub index: nat,
}

impl AccView {
    /// The bounds lie within the buffer.
    pub open spec fn well_formed(self) -> bool {
        self.pos <= self.end <= self.buf.len()
    }

    /// The buffered data not consumed yet.
    pub open spec fn available(self) -> Seq<u8> {
        self.buf.subrange(self.pos as int, self.end as int)
    }

    /// The unread data moved to the front of the buffer.
    pub open spec fn reset(self) -> AccView {
        AccView {
            buf: self.available() + self.buf.subrange(
                self.end - self.pos,
                self.buf.len() as int,
            ),
            pos: 0,
            end: (self.end - self.pos) as nat,
            index: self.index,
        }
    }

    /// `amt` more bytes of the stream consumed.
    pub open spec fn consumed(self, amt: nat) -> AccView {
        AccView {
            pos: if self.pos + amt <= self.end {
                self.pos + amt
            } else {
                self.end
            },
            index: self.index + amt,
            ..self
        }
    }

    /// The buffer must be refilled before it is read: it is not full, or
    /// part of it is consumed.
    pub open spec fn needs_fill(self) -> bool {
        self.pos != 0 || self.end != self.buf.len()
    }

    /// `data` written after the unread data.
    pub open spec fn filled(self, data: Seq<u8>) -> AccView {
        AccView {
            buf: self.buf.subrange(0, self.end as int) + data + self.buf.subrange(
                (self.end + data.len()) as int,
                self.buf.len() as int,
            ),
            end: self.end + data.len(),
            ..self
        }
    }

    /// How a read of `want` bytes is served.
    pub open spec fn read_plan(self, want: nat) -> ReadPlan {
        if want < self.end - self.pos {
            ReadPlan::Buffered
        } else if want > self.buf.len() {
            ReadPlan::Direct
        } else {
            ReadPlan::Refill
        }
    }

    /// The positions a seek computes fit their types: a seek within the
    /// buffered data moves the stream position without overflow, and the
    /// offset handed to the underlying reader, which stands past the
    /// buffered data, fits an `i64`.
    pub open spec fn seek_ok(self, target: SeekFrom) -> bool {
        match target {
            SeekFrom::Current(sz) => if sz >= 0 && (sz as usize) <= self.end - self.pos {
                self.index + (sz as usize) <= usize::MAX
            } else {
                sz - (self.end - self.pos) >= i64::MIN
            },
            _ => true,
        }
    }

    /// The state after consulting the buffer for a seek, and what remains.
    pub open spec fn seek(self, target: SeekFrom) -> (AccView, SeekStep) {
        match target {
            SeekFrom::Start(sz) => {
                let mv = (sz as usize) as nat;
                if self.index <= mv < self.index + (self.end - self.pos) {
                    (
                        AccView { pos: (self.pos + (mv - self.index)) as nat, index: mv, ..self },
                        SeekStep::Done(mv as u64),
                    )
                } else {
                    (self, SeekStep::Inner(target))
                }
            },
            SeekFrom::End(_) => (self, SeekStep::Inner(target)),
            SeekFrom::Current(sz) => {
                let remaining = self.end - self.pos;
                if sz >= 0 && (sz as usize) <= remaining {
                    (
                        AccView {
                            pos: self.pos + ((sz as usize) as nat),
                            index: self.index + ((sz as usize) as nat),
                            ..self
                        },
                        SeekStep::Done((self.index + (sz as usize)) as u64),
                    )
                } else {
                    // The underlying reader stands `remaining` bytes past
                    // the current position.
                    (self, SeekStep::Inner(SeekFrom::Current((sz - remaining) as i64)))
                }
            },
        }
    }
}

/// Moving the unread data to the front of the buffer keeps it, and keeps
/// the buffer's size.
pub proof fn lemma_reset_keeps_data(v: AccView)
    requires
        v.well_formed(),
    ensures
        v.reset().well_formed(),
        v.reset().available() == v.available(),
        v.reset().buf.len() == v.buf.len(),
        v.reset().index == v.index,
{
    assert(v.reset().available() =~= v.available());
}

/// Data written after the unread data is read after it.
pub proof fn lemma_fill_appends(v: AccView, data: Seq<u8>)
    requires
        v.well_formed(),
        v.end + data.len() <= v.buf.len(),
    ensures
        v.filled(data).well_formed(),
        v.filled(data).available() == v.available() + data,
        v.filled(data).buf.len() == v.buf.len(),
{
    assert(v.filled(data).available() =~= v.available() + data);
}

/// Consuming `n` bytes drops them from the front of the unread data (all of
/// it when fewer are buffered), and moves the stream position by `n`.
pub proof fn lemma_consume_drops(v: AccView, n: nat)
    requires
        v.well_formed(),
    ensures
        v.consumed(n).well_formed(),
        v.consumed(n).available() == v.available().skip(
            if n <= v.end - v.pos {
                n as int
            } else {
                v.end - v.pos
            },
        ),
        v.consumed(n).index == v.index + n,
{
    assert(v.consumed(n).available() =~= v.available().skip(
        if n <= v.end - v.pos {
            n as int
        } else {
            v.end - v.pos
        },
    ));
}

/// A seek forward within the unread data is done without the underlying
/// reader, and amounts to consuming the bytes skipped.
pub proof fn lemma_seek_forward_is_consume(v: AccView, k: i64)
    requires
        v.well_formed(),
        v.buf.len() <= usize::MAX,
        0 <= k <= v.end - v.pos,
    ensures
        v.seek(SeekFrom::Current(k)).0 == v.consumed(k as nat),
        v.seek(SeekFrom::Current(k)).1 == SeekStep::Done((v.index + k) as u64),
{
}

/// A seek to a stream position within the unread data is done without the
/// underlying reader: the unread data then starts at that position.
pub proof fn lemma_seek_start_within(v: AccView, target: u64)
    requires
        v.well_formed(),
        v.index <= target < v.index + (v.end - v.pos),
        target <= usize::MAX,
    ensures
        v.seek(SeekFrom::Start(target)).1 == SeekStep::Done(target),
        v.seek(SeekFrom::Start(target)).0.index == target,
        v.seek(SeekFrom::Start(target)).0.available() == v.available().skip(target - v.index),
{
    assert(v.seek(SeekFrom::Start(target)).0.available() =~= v.available().skip(target - v.index));
}

/// A seek relative to the current position reaches the stream position
/// of `v` moved by the offset: within the buffered data at once, otherwise
/// by a seek of the underlying reader, which stands past the buffered data,
/// relative to where it stands; for offsets that fit a `usize`, which the
/// buffered seek compares as one.
pub proof fn lemma_seek_current_target(v: AccView, sz: i64)
    requires
        v.well_formed(),
        v.seek_ok(SeekFrom::Current(sz)),
        sz <= usize::MAX,
    ensures
        match v.seek(SeekFrom::Current(sz)).1 {
            SeekStep::Done(p) => p == v.index + sz && v.seek(SeekFrom::Current(sz)).0.index == p,
            SeekStep::Inner(SeekFrom::Current(k)) => v.index + (v.end - v.pos) + k == v.index + sz
                && v.seek(SeekFrom::Current(sz)).0 == v,
            _ => false,
        },
{
}

/// A seek is reported done only at the position its target names, and only
/// when that position lies within the buffered data, which then starts
/// there; every other seek, and every seek from the end, goes to the
/// underlying reader, with the buffer left as it was. (For targets that fit
/// a `usize`, which the buffered seek compares as one.)
pub proof fn lemma_seek_outcomes(v: AccView, target: SeekFrom)
    requires
        v.well_formed(),
        v.seek_ok(target),
        target matches SeekFrom::Start(sz) ==> sz <= usize::MAX,
        target matches SeekFrom::Current(sz) ==> sz <= usize::MAX,
    ensures
        match target {
            SeekFrom::End(k) => v.seek(target) == (v, SeekStep::Inner(SeekFrom::End(k))),
            SeekFrom::Start(sz) => if v.index <= sz < v.index + (v.end - v.pos) {
                &&& v.seek(target).1 == SeekStep::Done(sz)
                &&& v.seek(target).0.index == sz
                &&& v.seek(target).0.available() == v.available().skip(sz - v.index)
            } else {
                v.seek(target) == (v, SeekStep::Inner(target))
            },
            SeekFrom::Current(sz) => if 0 <= sz <= v.end - v.pos {
                &&& v.seek(target).1 == SeekStep::Done((v.index + sz) as u64)
                &&& v.seek(target).0.index == v.index + sz
                &&& v.seek(target).0.available() == v.available().skip(sz as int)
            } else {
                &&& v.seek(target).0 == v
                &&& v.seek(target).1 matches SeekStep::Inner(SeekFrom::Current(k))
                &&& v.index + (v.end - v.pos) + k == v.index + sz
            },
        },
{
    match target {
        SeekFrom::Start(sz) => {
            if v.index <= sz < v.index + (v.end - v.pos) {
                lemma_seek_start_within(v, sz);
            }
        },
        SeekFrom::Current(sz) => {
            lemma_seek_current_target(v, sz);
            if 0 <= sz <= v.end - v.pos {
                assert(v.seek(target).0.available() =~= v.available().skip(sz as int));
            }
        },
        SeekFrom::End(_) => {},
    }
}

/// The buffered data of `v` is the stream `src` from the position of `v`
/// up to `at`, where the underlying reader stands.
pub open spec fn follows_stream(v: AccView, src: Seq<u8>, at: nat) -> bool {
    &&& v.well_formed()
    &&& v.index + (v.end - v.pos) == at
    &&& at <= src.len()
    &&& v.available() == src.subrange(v.index as int, at as int)
}

/// One step of a reader driving an `AccReader`.
pub ghost enum AccOp {
    /// `take` up to this many buffered bytes.
    Take(nat),
    /// `prepare_fill`, then `commit_fill` of the bytes the underlying reader
    /// gave, this many.
    Fill(nat),
    /// The buffered data (`current_slice`) followed by this many bytes read
    /// straight from the underlying reader: `consume` them all, then
    /// `reset_buffer_position`.
    Direct(nat),
}

/// How many bytes `take(want)` gives.
pub open spec fn taken(v: AccView, want: nat) -> nat {
    if want <= v.end - v.pos {
        want
    } else {
        (v.end - v.pos) as nat
    }
}

/// The state that `prepare_fill` leaves.
pub open spec fn prepared(v: AccView) -> AccView {
    if v.needs_fill() {
        v.reset()
    } else {
        v
    }
}

/// How many bytes `prepare_fill` lets the underlying reader write.
pub open spec fn fill_room(v: AccView) -> nat {
    if v.needs_fill() {
        (v.buf.len() - (v.end - v.pos)) as nat
    } else {
        0
    }
}

/// `op` can happen on `v`, the underlying reader standing at `at` in `src`:
/// the reader gives no more than it was asked for, nor more than the stream
/// holds.
pub open spec fn op_ok(v: AccView, at: nat, src: Seq<u8>, op: AccOp) -> bool {
    match op {
        AccOp::Take(_) => true,
        AccOp::Fill(got) => got <= fill_room(v) && at + got <= src.len(),
        AccOp::Direct(got) => at + got <= src.len(),
    }
}

/// The state, the position of the underlying reader and the bytes handed
/// out after `op`.
pub open spec fn op_effect(v: AccView, at: nat, src: Seq<u8>, op: AccOp) -> (AccView, nat, Seq<u8>) {
    match op {
        AccOp::Take(want) => (
            v.consumed(taken(v, want)),
            at,
            v.available().take(taken(v, want) as int),
        ),
        AccOp::Fill(got) => (
            prepared(v).filled(src.subrange(at as int, (at + got) as int)),
            at + got,
            Seq::empty(),
        ),
        AccOp::Direct(got) => (
            v.consumed(((v.end - v.pos) + got) as nat).reset(),
            at + got,
            v.available() + src.subrange(at as int, (at + got) as int),
        ),
    }
}

/// Each of `ops` can happen in turn.
pub open spec fn run_ok(v: AccView, at: nat, src: Seq<u8>, ops: Seq<AccOp>) -> bool
    decreases ops.len(),
{
    if ops.len() == 0 {
        true
    } else {
        let (v2, at2, out) = op_effect(v, at, src, ops[0]);
        op_ok(v, at, src, ops[0]) && run_ok(v2, at2, src, ops.skip(1))
    }
}

/// The state, the position of the underlying reader and all the bytes
/// handed out after `ops`, in turn.
pub open spec fn run(v: AccView, at: nat, src: Seq<u8>, ops: Seq<AccOp>) -> (AccView, nat, Seq<u8>)
    decreases ops.len(),
{
    if ops.len() == 0 {
        (v, at, Seq::empty())
    } else {
        let (v2, at2, out) = op_effect(v, at, src, ops[0]);
        let (v3, at3, rest) = run(v2, at2, src, ops.skip(1));
        (v3, at3, out + rest)
    }
}

proof fn lemma_op_follows_stream(v: AccView, at: nat, src: Seq<u8>, op: AccOp)
    requires
        follows_stream(v, src, at),
        op_ok(v, at, src, op),
    ensures
        follows_stream(op_effect(v, at, src, op).0, src, op_effect(v, at, src, op).1),
        op_effect(v, at, src, op).2 == src.subrange(
            v.index as int,
            op_effect(v, at, src, op).0.index as int,
        ),
        op_effect(v, at, src, op).0.buf.len() == v.buf.len(),
{
    match op {
        AccOp::Take(want) => {
            let t = taken(v, want);
            lemma_consume_drops(v, t);
            assert(v.consumed(t).available() =~= src.subrange((v.index + t) as int, at as int));
            assert(v.available().take(t as int) =~= src.subrange(v.index as int, (v.index + t) as int));
        },
        AccOp::Fill(got) => {
            let w = prepared(v);
            if v.needs_fill() {
                lemma_reset_keeps_data(v);
            }
            let data = src.subrange(at as int, (at + got) as int);
            lemma_fill_appends(w, data);
            assert(w.available() + data =~= src.subrange(v.index as int, (at + got) as int));
        },
        AccOp::Direct(got) => {
            let c = v.consumed(((v.end - v.pos) + got) as nat);
            lemma_consume_drops(v, ((v.end - v.pos) + got) as nat);
            lemma_reset_keeps_data(c);
            assert(c.reset().available() =~= src.subrange((at + got) as int, (at + got) as int));
            assert(v.available() + src.subrange(at as int, (at + got) as int) =~= src.subrange(
                v.index as int,
                (at + got) as int,
            ));
        },
    }
}

/// Whatever mix of buffered reads, refills and direct reads drives an
/// `AccReader`, the bytes it hands out are the stream's bytes from its
/// position on, none lost, repeated or reordered, and its position moves by
/// as many bytes as it handed out.
pub proof fn lemma_reads_follow_stream(v: AccView, at: nat, src: Seq<u8>, ops: Seq<AccOp>)
    requires
        follows_stream(v, src, at),
        run_ok(v, at, src, ops),
    ensures
        follows_stream(run(v, at, src, ops).0, src, run(v, at, src, ops).1),
        run(v, at, src, ops).2 == src.subrange(v.index as int, run(v, at, src, ops).0.index as int),
        run(v, at, src, ops).0.index == v.index + run(v, at, src, ops).2.len(),
    decreases ops.len(),
{
    if ops.len() > 0 {
        let (v2, at2, out) = op_effect(v, at, src, ops[0]);
        lemma_op_follows_stream(v, at, src, ops[0]);
        lemma_reads_follow_stream(v2, at2, src, ops.skip(1));
        let (v3, at3, rest) = run(v2, at2, src, ops.skip(1));
        assert(out + rest =~= src.subrange(v.index as int, v3.index as int));
    }
}

/// From a fresh `AccReader` over a stream at its start, the bytes handed out
/// by any run of reads are the first bytes of the stream, and the stream
/// position it reports, a seek by 0 from the current position done without
/// the underlying reader, is how many bytes it handed out.
pub proof fn lemma_reads_from_start(cap: nat, src: Seq<u8>, ops: Seq<AccOp>)
    requires
        run_ok(AccView { buf: Seq::new(cap, |i: int| 0u8), pos: 0, end: 0, index: 0 }, 0, src, ops),
    ensures
        ({
            let v0 = AccView { buf: Seq::new(cap, |i: int| 0u8), pos: 0, end: 0, index: 0 };
            let (v, at, out) = run(v0, 0, src, ops);
            &&& out == src.take(out.len() as int)
            &&& v.index == out.len()
            &&& v.seek(SeekFrom::Current(0)) == (v, SeekStep::Done(out.len() as u64))
        }),
{
    let v0 = AccView { buf: Seq::new(cap, |i: int| 0u8), pos: 0, end: 0, index: 0 };
    assert(v0.available() =~= src.subrange(0, 0));
    lemma_reads_follow_stream(v0, 0, src, ops);
    let (v, at, out) = run(v0, 0, src, ops);
    assert(src.subrange(0, v.index as int) =~= src.take(out.len() as int));
    assert(v.seek(SeekFrom::Current(0)).0 =~= v);
}

/// Partial consumption buffer for any reader.
pub struct AccReader<R> {
    inner: R,
    win: Window,
}

/// The internal buffer and the bounds of the unread data in it.
struct Window {
    buf: Vec<u8>,
    pos: usize,
    end: usize,
    // Position in the stream of the buffer's beginning
    index: usize,
}

impl Window {
    #[verifier::type_invariant]
    spec fn bounds(self) -> bool {
        self.pos <= self.end <= self.buf.len()
    }
}

impl<R> AccReader<R> {

    /// The underlying reader.
    pub closed spec fn reader(self) -> R {
        self.inner
    }
}

impl<R> View for AccReader<R> {
    type V = AccView;

    closed spec fn view(&self) -> AccView {
        AccView {
            buf: self.win.buf@,
            pos: self.win.pos as nat,
            end: self.win.end as nat,
            index: self.win.index as nat,
        }
    }
}

impl<R> AccReader<R> {
    /// Creates a new `AccReader` instance.
    pub fn new(inner: R) -> (r: AccReader<R>)
        ensures
            r@ == (AccView {
                buf: Seq::new(DEFAULT_CAPACITY as nat, |i: int| 0u8),
                pos: 0,
                end: 0,
                index: 0,
            }),
            r.reader() == inner,
    {
        AccReader::with_capacity(DEFAULT_CAPACITY, inner)
    }

    /// Creates a new `AccReader` instance of a determined capacity
    /// for a reader.
    pub fn with_capacity(cap: usize, inner: R) -> (r: AccReader<R>)
        ensures
            r@ == (AccView { buf: Seq::new(cap as nat, |i: int| 0u8), pos: 0, end: 0, index: 0 }),
            r.reader() == inner,
    {
        let buf = vec![0u8; cap];
        assert(buf@ =~= Seq::new(cap as nat, |i: int| 0u8));
        AccReader { inner, win: Window { buf, pos: 0, end: 0, index: 0 } }
    }

    /// Gets a reference to the underlying reader.
    pub fn get_ref(&self) -> (r: &R)
        ensures
            *r == self.reader(),
    {
        &self.inner
    }

    /// Gets a mutable reference to the underlying reader.
    pub fn get_mut(&mut self) -> (r: &mut R)
        ensures
            *r == old(self).reader(),
            final(self)@ == old(self)@,
            final(self).reader() == *final(r),
        no_unwind
    {
        &mut self.inner
    }

    /// Unwraps the `AccReader`, returning the underlying reader.
    ///
    /// Note that any leftover data in the internal buffer is lost.
    pub fn into_inner(self) -> (r: R)
        ensures
            r == self.reader(),
    {
        self.inner
    }

    /// Resets the buffer to the current position.
    ///
    /// All data before the current position is lost.
    pub fn reset_buffer_position(&mut self)
        ensures
            final(self)@ == old(self)@.reset(),
            final(self)@.well_formed(),
            final(self).reader() == old(self).reader(),
        no_unwind
    {
        proof {
            use_type_invariant(&self.win);
        }
        let start = self.win.pos;
        let n = self.win.end - self.win.pos;
        if n > 0 {
            let mut i: usize = 0;
            while i < n
                invariant
                    self.win.pos == start,
                    self.win.end == old(self).win.end,
                    start == old(self).win.pos,
                    n == old(self).win.end - old(self).win.pos,
                    old(self).win.end <= old(self).win.buf.len(),
                    i <= n,
                    self.win.buf.len() == old(self).win.buf.len(),
                    self.inner == old(self).inner,
                    self.win.index == old(self).win.index,
                    forall|k: int| 0 <= k < i ==> self.win.buf@[k] == old(self).win.buf@[start + k],
                    forall|k: int| i <= k < self.win.buf.len() ==> self.win.buf@[k] == old(self).win.buf@[k],
                decreases n - i,
            {
                let b = self.win.buf[start + i];
                self.win.buf[i] = b;
                i += 1;
            }
        }
        self.win.pos = 0;
        self.win.end = n;
        assert(self@.buf =~= old(self)@.reset().buf);
    }

    /// Returns buffer data.
    pub fn current_slice(&self) -> (r: &[u8])
        ensures
            r@ == self@.available(),
    {
        proof {
            use_type_invariant(&self.win);
        }
        vstd::slice::slice_subrange(self.win.buf.as_slice(), self.win.pos, self.win.end)
    }

    /// Returns buffer capacity.
    pub fn capacity(&self) -> (r: usize)
        ensures
            r == self@.end - self@.pos,
    {
        proof {
            use_type_invariant(&self.win);
        }
        self.win.end - self.win.pos
    }

    /// The size of the internal buffer.
    pub fn buffer_len(&self) -> (r: usize)
        ensures
            r == self@.buf.len(),
    {
        self.win.buf.len()
    }

    /// The stream position of the first unread byte.
    pub fn position(&self) -> (r: usize)
        ensures
            r == self@.index,
    {
        self.win.index
    }

    /// Marks `amt` bytes of the stream as used.
    pub fn consume(&mut self, amt: usize)
        requires
            old(self)@.index + amt <= usize::MAX,
        ensures
            final(self)@ == old(self)@.consumed(amt as nat),
            final(self)@.well_formed(),
            final(self).reader() == old(self).reader(),
    {
        proof {
            use_type_invariant(&self.win);
        }
        if amt < self.win.end - self.win.pos {
            self.win.pos = self.win.pos + amt;
        } else {
            self.win.pos = self.win.end;
        }
        self.win.index = self.win.index + amt;
    }
    /// Makes room for new data, when the buffer is not full or part of it
    /// is consumed: the unread data moves to the front of the buffer, and
    /// the result is how many bytes may be written after it
    /// (`commit_fill`). `None` when the buffer is full of unread data.
    pub fn prepare_fill(&mut self) -> (r: Option<usize>)
        ensures
            old(self)@.needs_fill() ==> {
                &&& final(self)@ == old(self)@.reset()
                &&& r == Some((old(self)@.buf.len() - (old(self)@.end - old(self)@.pos)) as usize)
            },
            !old(self)@.needs_fill() ==> final(self)@ == old(self)@ && r is None,
            final(self)@.well_formed(),
            final(self).reader() == old(self).reader(),
    {
        proof {
            use_type_invariant(&self.win);
        }
        if self.win.pos != 0 || self.win.end != self.win.buf.len() {
            self.reset_buffer_position();
            proof {
                use_type_invariant(&self.win);
            }
            Some(self.win.buf.len() - self.win.end)
        } else {
            None
        }
    }

    /// Appends what the underlying reader produced after the unread data.
    pub fn commit_fill(&mut self, data: &[u8])
        requires
            old(self)@.end + data@.len() <= old(self)@.buf.len(),
        ensures
            final(self)@ == old(self)@.filled(data@),
            final(self)@.well_formed(),
            final(self).reader() == old(self).reader(),
    {
        proof {
            use_type_invariant(&self.win);
        }
        let mut w = Window { buf: Vec::new(), pos: 0, end: 0, index: 0 };
        std::mem::swap(&mut w, &mut self.win);
        let Window { mut buf, pos, end, index } = w;
        let ghost old_buf = buf@;
        let mut i: usize = 0;
        while i < data.len()
            invariant
                pos <= end,
                end + data@.len() <= old_buf.len(),
                buf.len() == old_buf.len(),
                i <= data@.len(),
                forall|k: int| 0 <= k < end ==> buf@[k] == old_buf[k],
                forall|k: int| 0 <= k < i ==> buf@[end + k] == data@[k],
                forall|k: int| end + i <= k < buf.len() ==> buf@[k] == old_buf[k],
            decreases data@.len() - i,
        {
            buf.set(end + i, data[i]);
            i += 1;
        }
        let new_end = end + data.len();
        self.win = Window { buf, pos, end: new_end, index };
        assert(self@.buf =~= old(self)@.filled(data@).buf);
    }

    /// How a read of `want` bytes is served.
    pub fn read_plan(&self, want: usize) -> (r: ReadPlan)
        ensures
            r == self@.read_plan(want as nat),
    {
        proof {
            use_type_invariant(&self.win);
        }
        if want < self.win.end - self.win.pos {
            ReadPlan::Buffered
        } else if want > self.win.buf.len() {
            ReadPlan::Direct
        } else {
            ReadPlan::Refill
        }
    }

    /// Copies out up to `want` bytes of the unread data and consumes them.
    pub fn take(&mut self, want: usize) -> (r: Vec<u8>)
        requires
            old(self)@.index + (if want <= old(self)@.end - old(self)@.pos {
                want as int
            } else {
                old(self)@.end - old(self)@.pos
            }) <= usize::MAX,
        ensures
            r@ == old(self)@.available().take(
                if want <= old(self)@.end - old(self)@.pos {
                    want as int
                } else {
                    old(self)@.end - old(self)@.pos
                },
            ),
            final(self)@ == old(self)@.consumed(r@.len()),
            final(self)@.well_formed(),
            final(self).reader() == old(self).reader(),
    {
        proof {
            use_type_invariant(&self.win);
        }
        let avail = self.win.end - self.win.pos;
        let n = if want <= avail {
            want
        } else {
            avail
        };
        let mut out: Vec<u8> = Vec::with_capacity(n);
        let mut i: usize = 0;
        while i < n
            invariant
                n <= self.win.end - self.win.pos,
                self.win.pos <= self.win.end <= self.win.buf.len(),
                i <= n,
                out@ == self@.available().take(i as int),
            decreases n - i,
        {
            out.push(self.win.buf[self.win.pos + i]);
            i += 1;
            assert(out@ =~= self@.available().take(i as int));
        }
        self.consume(n);
        out
    }

    /// Consults the buffered data for a seek: a target within it is reached
    /// by moving the current position; otherwise the underlying reader has
    /// to seek, to the position in the result.
    pub fn seek_buffered(&mut self, target: SeekFrom) -> (r: SeekStep)
        requires
            old(self)@.seek_ok(target),
        ensures
            (final(self)@, r) == old(self)@.seek(target),
            final(self)@.well_formed(),
            final(self).reader() == old(self).reader(),
    {
        proof {
            use_type_invariant(&self.win);
        }
        let pos = self.win.pos;
        let end = self.win.end;
        let index = self.win.index;
        let (new_pos, new_index, step) = match target {
            SeekFrom::Start(sz) => {
                let mv = sz as usize;
                if mv >= index && mv - index < end - pos {
                    (pos + (mv - index), mv, SeekStep::Done(mv as u64))
                } else {
                    (pos, index, SeekStep::Inner(target))
                }
            },
            SeekFrom::End(_) => (pos, index, SeekStep::Inner(target)),
            SeekFrom::Current(sz) => {
                let remaining = end - pos;
                if sz >= 0 && sz as usize <= remaining {
                    let step = sz as usize;
                    (pos + step, index + step, SeekStep::Done((index + step) as u64))
                } else {
                    (pos, index, SeekStep::Inner(SeekFrom::Current(sz - remaining as i64)))
                }
            },
        };
        self.win.pos = new_pos;
        self.win.index = new_index;
        step
    }

    /// Records where the underlying reader went after a seek: the buffer is
    /// emptied, to be refilled from there.
    pub fn after_inner_seek(&mut self, sz: u64)
        ensures
            final(self)@ == (AccView {
                index: (sz as usize) as nat,
                pos: 0,
                end: 0,
                ..old(self)@
            }),
            final(self).reader() == old(self).reader(),
    {
        proof {
            use_type_invariant(&self.win);
        }
        self.win.pos = 0;
        self.win.end = 0;
        self.win.index = sz as usize;
    }
}

/// The bytes of `src` followed by `extra` zeros.
fn zero_extended(src: &Vec<u8>, extra: usize) -> (r: Vec<u8>)
    requires
        src.len() + extra <= usize::MAX,
    ensures
        r@ == src@ + Seq::new(extra as nat, |i: int| 0u8),
{
    let total = src.len() + extra;
    let mut out: Vec<u8> = Vec::with_capacity(total);
    let mut i: usize = 0;
    while i < src.len()
        invariant
            i <= src.len(),
            out@ == src@.take(i as int),
        decreases src.len() - i,
    {
        out.push(src[i]);
        i += 1;
        assert(out@ =~= src@.take(i as int));
    }
    while i < total
        invariant
            src.len() <= i <= total,
            total == src.len() + extra,
            out@ == src@ + Seq::new((i - src.len()) as nat, |k: int| 0u8),
        decreases total - i,
    {
        out.push(0u8);
        i += 1;
        assert(out@ =~= src@ + Seq::new((i - src.len()) as nat, |k: int| 0u8));
    }
    out
}

impl<R> Buffered for AccReader<R> {
    open spec fn buffered(&self) -> Seq<u8> {
        self@.available()
    }

    open spec fn buffer_size(&self) -> nat {
        self@.buf.len()
    }

    fn data(&self) -> (r: &[u8]) {
        self.current_slice()
    }

    fn grow(&mut self, len: usize)
        ensures
            final(self)@ == (AccView {
                buf: old(self)@.buf + Seq::new(len as nat, |i: int| 0u8),
                ..old(self)@
            }),
            final(self).reader() == old(self).reader(),
    {
        proof {
            use_type_invariant(&self.win);
        }
        let nb = zero_extended(&self.win.buf, len);
        self.win.buf = nb;
        assert(self@.available() =~= old(self)@.available());
    }
}

} // verus!
