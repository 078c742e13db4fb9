//! Utilities for muxing containers.
use vstd::prelude::*;
use vstd::string::StringSliceAdditionalSpecFns;

verus! {

/// A sink with a count of the bytes written to it.
///
/// The writes and seeks themselves are made by the caller on the sink
/// (`get_mut`), which reports them with `record_write` and `record_seek`.
pub struct Writer<W> {
    writer: W,
    bytes_written: usize,
}

impl<W> Writer<W> {
    /// The sink.
    pub closed spec fn sink(&self) -> W {
        self.writer
    }

    /// The stream position: the bytes written, or where the last seek went.
    pub closed spec fn written(&self) -> nat {
        self.bytes_written as nat
    }

    /// Creates a [`Writer`] from a sink, at position 0.
    pub fn new(inner: W) -> (r: Self)
        ensures
            r.sink() == inner,
            r.written() == 0,
    {
        Self { writer: inner, bytes_written: 0 }
    }

    /// Returns stream position.
    pub fn position(&mut self) -> (r: usize)
        ensures
            r == old(self).written(),
            *final(self) == *old(self),
    {
        self.bytes_written
    }

    /// Returns a reference to the underlying writer and bytes written.
    pub fn as_ref(&self) -> (r: (&W, usize))
        ensures
            *r.0 == self.sink(),
            r.1 == self.written(),
    {
        (&self.writer, self.bytes_written)
    }

    /// Returns the sink, to write to it or seek it.
    pub fn get_mut(&mut self) -> (r: &mut W)
        ensures
            *r == old(self).sink(),
            final(self).sink() == *final(r),
            final(self).written() == old(self).written(),
    {
        &mut self.writer
    }

    /// Consumes the writer and returns the sink.
    pub fn into_inner(self) -> (r: W)
        ensures
            r == self.sink(),
    {
        self.writer
    }

    /// Counts `written` more bytes written to the sink.
    pub fn record_write(&mut self, written: usize)
        requires
            old(self).written() + written <= usize::MAX,
        ensures
            final(self).written() == old(self).written() + written,
            final(self).sink() == old(self).sink(),
    {
        self.bytes_written = self.bytes_written + written;
    }

    /// Records that a seek of the sink went to position `pos`.
    pub fn record_seek(&mut self, pos: u64)
        ensures
            final(self).written() == (pos as usize) as nat,
            final(self).sink() == old(self).sink(),
    {
        self.bytes_written = pos as usize;
    }
}

/// What a `Writer` recorded of its sink: a write of so many bytes
/// (`record_write`), or a seek that went to a position (`record_seek`).
pub ghost enum SinkEvent {
    /// So many bytes written.
    Wrote(nat),
    /// A seek to this position.
    SoughtTo(nat),
}

/// The position after recording `e` at position `written`.
pub open spec fn recorded(written: nat, e: SinkEvent) -> nat {
    match e {
        SinkEvent::Wrote(k) => written + k,
        SinkEvent::SoughtTo(p) => p,
    }
}

/// Where the last seek of `evs` went; 0 when there is none.
pub open spec fn last_seek(evs: Seq<SinkEvent>) -> nat
    decreases evs.len(),
{
    if evs.len() == 0 {
        0
    } else {
        match evs.last() {
            SinkEvent::SoughtTo(p) => p,
            SinkEvent::Wrote(_) => last_seek(evs.drop_last()),
        }
    }
}

/// The bytes written after the last seek of `evs` (all of them when there is
/// none).
pub open spec fn written_since_seek(evs: Seq<SinkEvent>) -> nat
    decreases evs.len(),
{
    if evs.len() == 0 {
        0
    } else {
        match evs.last() {
            SinkEvent::SoughtTo(_) => 0,
            SinkEvent::Wrote(k) => written_since_seek(evs.drop_last()) + k,
        }
    }
}

/// The position of a `Writer` created at position 0, which then recorded
/// `evs` in turn (`ws` its successive states), is where its last seek went
/// plus the bytes written since; with no seek, all the bytes written.
pub proof fn lemma_position_after_run<W>(ws: Seq<Writer<W>>, evs: Seq<SinkEvent>)
    requires
        ws.len() == evs.len() + 1,
        ws[0].written() == 0,
        forall|i: int|
            0 <= i < evs.len() ==> #[trigger] ws[i + 1].written() == recorded(
                ws[i].written(),
                evs[i],
            ),
    ensures
        ws.last().written() == last_seek(evs) + written_since_seek(evs),
    decreases evs.len(),
{
    if evs.len() > 0 {
        let ws1 = ws.drop_last();
        let evs1 = evs.drop_last();
        assert forall|i: int| 0 <= i < evs1.len() implies #[trigger] ws1[i + 1].written() == recorded(
            ws1[i].written(),
            evs1[i],
        ) by {
            assert(ws[i + 1].written() == recorded(ws[i].written(), evs[i]));
        }
        lemma_position_after_run(ws1, evs1);
        let n = evs.len() - 1;
        assert(ws[n + 1].written() == recorded(ws[n].written(), evs[n]));
    }
}

/// Format descriptor.
///
/// Contains information on a format and its own muxer.
#[derive(Clone, Debug, PartialEq, Eq)]
pub struct Descr {
    /// Format name.
    pub name: &'static str,
    /// Muxer name.
    pub demuxer: &'static str,
    /// Format description.
    pub description: &'static str,
    /// Format media file extensions.
    pub extensions: &'static [&'static str],
    /// Format MIME.
    pub mime: &'static [&'static str],
}

/// Whether two strings are the same.
pub fn str_eq(a: &str, b: &str) -> (r: bool)
    ensures
        r == (a@ == b@),
{
    let x = a.as_bytes();
    let y = b.as_bytes();
    proof {
        vstd::utf8::encode_utf8_decode_utf8(a@);
        vstd::utf8::encode_utf8_decode_utf8(b@);
    }
    if x.len() != y.len() {
        return false;
    }
    let mut i: usize = 0;
    while i < x.len()
        invariant
            x@ == a.spec_bytes(),
            y@ == b.spec_bytes(),
            x@.len() == y@.len(),
            i <= x@.len(),
            forall|j: int| 0 <= j < i ==> x@[j] == y@[j],
        decreases x@.len() - i,
    {
        if x[i] != y[i] {
            return false;
        }
        i += 1;
    }
    assert(x@ =~= y@);
    true
}

/// The position of the first of `names` equal to `name`.
pub open spec fn first_named(names: Seq<Seq<char>>, name: Seq<char>, i: int) -> bool {
    &&& 0 <= i < names.len()
    &&& names[i] == name
    &&& forall|j: int| 0 <= j < i ==> names[j] != name
}

/// The position of the first format of the list named `name`.
pub fn find_by_name(descrs: &[&Descr], name: &str) -> (r: Option<usize>)
    ensures
        match r {
            Some(i) => first_named(descrs@.map_values(|d: &Descr| d.name@), name@, i as int),
            None => forall|j: int| 0 <= j < descrs@.len() ==> descrs@[j].name@ != name@,
        },
{
    let mut k: usize = 0;
    while k < descrs.len()
        invariant
            k <= descrs@.len(),
            forall|j: int| 0 <= j < k ==> descrs@[j].name@ != name@,
        decreases descrs@.len() - k,
    {
        if str_eq(descrs[k].name, name) {
            return Some(k);
        }
        k += 1;
    }
    None
}

} // verus!
