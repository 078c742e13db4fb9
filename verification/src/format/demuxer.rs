//! Utilities for demuxing containers.
use vstd::prelude::*;
use crate::data::packet::Packet;
use crate::format::buffer::Buffered;
use crate::format::buffer::accreader::SeekFrom;
use crate::format::common::GlobalInfo;
use crate::format::error::{Error, Result};
use crate::format::stream::{same_stream, Stream};
use crate::data::timeinfo::{TimeInfo, UserData};
use std::sync::Arc;

verus! {

/// Events processed by a demuxer analyzing a source.
#[non_exhaustive]
#[derive(Clone, Debug)]
pub enum Event {
    /// A new packet is found by a demuxer.
    NewPacket(Packet),
    /// A new stream is found by a demuxer.
    NewStream(Stream),
    /// More data are needed by a demuxer to complete its operations.
    MoreDataNeeded(usize),
    /// Event not processable by a demuxer.
    ///
    /// Demux the next event.
    Continue,
    /// End of File.
    ///
    /// Stop demuxing data.
    Eof,
}

/// Used to implement demuxing operations.
pub trait Demuxer: Send + Sync {
    /// Reads stream headers and global information from a data structure
    /// implementing the `Buffered` trait.
    ///
    /// Global information are saved into a `GlobalInfo` structure.
    fn read_headers<B: Buffered>(&mut self, buf: &mut B, info: &mut GlobalInfo) -> Result<
        SeekFrom,
    >;
    /// Reads an event from a data structure implementing the `Buffered` trait.
    fn read_event<B: Buffered>(&mut self, buf: &mut B) -> Result<(SeekFrom, Event)>;
}

/// The first stream of `streams` whose index is `stream_index`.
pub open spec fn stream_of(streams: Seq<Stream>, stream_index: isize) -> Option<int> {
    if exists|i: int| 0 <= i < streams.len() && streams[i].index as isize == stream_index {
        Some(
            choose|i: int|
                0 <= i < streams.len() && streams[i].index as isize == stream_index && forall|
                    j: int,
                |
                    0 <= j < i ==> streams[j].index as isize != stream_index,
        )
    } else {
        None
    }
}

/// `pkt`, with the timebase of the first of `streams` with its stream
/// index when it has none.
pub open spec fn with_stream_timebase(streams: Seq<Stream>, pkt: Packet) -> Packet {
    let found = stream_of(streams, pkt.stream_index);
    if pkt.t.timebase is None && found is Some {
        Packet {
            t: TimeInfo { timebase: Some(streams[found.unwrap()].timebase), ..pkt.t },
            ..pkt
        }
    } else {
        pkt
    }
}

/// What applying `event` gives, with `streams` the streams known so far.
pub open spec fn applied(streams: Seq<Stream>, event: Event) -> Result<Event> {
    match event {
        Event::MoreDataNeeded(size) => Err(Error::MoreDataNeeded(size)),
        Event::NewPacket(pkt) => Ok(Event::NewPacket(with_stream_timebase(streams, pkt))),
        _ => Ok(event),
    }
}

/// A packet that has a timebase keeps it. A packet without one takes the
/// timebase of the first stream with its stream index, and keeps it missing
/// when no stream has that index; nothing else of the packet changes.
pub proof fn lemma_packet_timebase(streams: Seq<Stream>, pkt: Packet)
    ensures
        pkt.t.timebase is Some ==> applied(streams, Event::NewPacket(pkt)) == Ok::<Event, Error>(
            Event::NewPacket(pkt),
        ),
        (forall|j: int| 0 <= j < streams.len() ==> streams[j].index as isize != pkt.stream_index)
            ==> applied(streams, Event::NewPacket(pkt)) == Ok::<Event, Error>(
            Event::NewPacket(pkt),
        ),
        forall|i: int|
            {
                &&& 0 <= i < streams.len()
                &&& #[trigger] streams[i].index as isize == pkt.stream_index
                &&& forall|j: int| 0 <= j < i ==> streams[j].index as isize != pkt.stream_index
                &&& pkt.t.timebase is None
            } ==> applied(streams, Event::NewPacket(pkt)) == Ok::<Event, Error>(
                Event::NewPacket(
                    Packet { t: TimeInfo { timebase: Some(streams[i].timebase), ..pkt.t }, ..pkt },
                ),
            ),
{
    assert forall|i: int|
        {
            &&& 0 <= i < streams.len()
            &&& #[trigger] streams[i].index as isize == pkt.stream_index
            &&& forall|j: int| 0 <= j < i ==> streams[j].index as isize != pkt.stream_index
            &&& pkt.t.timebase is None
        } implies applied(streams, Event::NewPacket(pkt)) == Ok::<Event, Error>(
        Event::NewPacket(
            Packet { t: TimeInfo { timebase: Some(streams[i].timebase), ..pkt.t }, ..pkt },
        ),
    ) by {
        let found = stream_of(streams, pkt.stream_index);
        assert(found is Some);
        let k = found.unwrap();
        assert(0 <= k < streams.len() && streams[k].index as isize == pkt.stream_index);
        if k < i {
            assert(streams[k].index as isize != pkt.stream_index);
        }
        if i < k {
            assert(streams[i].index as isize != pkt.stream_index);
        }
        assert(k == i);
    }
}

/// The position of the first of `streams` whose index is `stream_index`.
pub fn find_stream(streams: &Vec<Stream>, stream_index: isize) -> (r: Option<usize>)
    ensures
        match r {
            Some(k) => k < streams@.len() && stream_of(streams@, stream_index) == Some(k as int),
            None => stream_of(streams@, stream_index) is None,
        },
{
    let mut i: usize = 0;
    while i < streams.len()
        invariant
            i <= streams@.len(),
            forall|j: int| 0 <= j < i ==> streams@[j].index as isize != stream_index,
        decreases streams@.len() - i,
    {
        if streams[i].index as isize == stream_index {
            assert(stream_of(streams@, stream_index) == Some(i as int));
            return Some(i);
        }
        i += 1;
    }
    None
}

/// `pkt`, with the timebase of the first of `streams` with its stream
/// index when it has none.
pub fn fill_timebase(streams: &Vec<Stream>, pkt: Packet) -> (r: Packet)
    ensures
        r == with_stream_timebase(streams@, pkt),
{
    let mut pkt = pkt;
    if pkt.t.timebase.is_none() {
        match find_stream(streams, pkt.stream_index) {
            Some(i) => {
                pkt.t.timebase = Some(streams[i].timebase);
            },
            None => {},
        }
    }
    pkt
}

/// What a demuxing loop does after a step failed.
#[derive(Debug)]
pub enum Recovery {
    /// The data source already holds what was asked for: demux again.
    Retry,
    /// Grow the buffer of the data source by this many bytes, refill it and
    /// demux again; when the refill brings no new data, the source is at its
    /// end.
    Grow(usize),
    /// Give up with this error.
    Fail(Error),
}

/// What to do after reading the headers failed with `e`: a request for more
/// data grows the buffer by that much, other errors end demuxing.
pub fn headers_recovery(e: Error) -> (r: Recovery)
    ensures
        match e {
            Error::MoreDataNeeded(needed) => r == Recovery::Grow(needed),
            _ => r == Recovery::Fail(e),
        },
{
    match e {
        Error::MoreDataNeeded(needed) => Recovery::Grow(needed),
        other => Recovery::Fail(other),
    }
}

/// Whether a refill of the data source after growing it brought no new data,
/// which marks its end: `before` and `after` are the lengths of its data.
pub fn at_end(before: usize, after: usize) -> (r: bool)
    ensures
        r == (after <= before),
{
    after <= before
}

/// Auxiliary structure to encapsulate a demuxer object and
/// its additional data.
///
/// Reading and seeking the data source is left to the caller: one demuxing
/// step is `read_headers_step` or `read_event_step`, then a seek of the
/// reader to the position the demuxer asked for, then `apply_event`.
pub struct Context<D: Demuxer, R: Buffered> {
    demuxer: D,
    reader: R,
    /// Global media file information.
    pub info: GlobalInfo,
    /// User private data.
    ///
    /// This data cannot be cloned.
    pub user_private: Option<Arc<UserData>>,
}

impl<D: Demuxer, R: Buffered> Context<D, R> {
    /// The demuxer.
    pub closed spec fn demuxer_spec(&self) -> D {
        self.demuxer
    }

    /// The data source.
    pub closed spec fn reader_spec(&self) -> R {
        self.reader
    }

    /// The global media file information.
    pub closed spec fn info_spec(&self) -> GlobalInfo {
        self.info
    }

    /// The user private data.
    pub closed spec fn user_spec(&self) -> Option<Arc<UserData>> {
        self.user_private
    }

    /// Creates a new `Context` instance.
    pub fn new(demuxer: D, reader: R) -> (r: Self)
        ensures
            r.demuxer_spec() == demuxer,
            r.reader_spec() == reader,
            r.info_spec().duration is None,
            r.info_spec().timebase is None,
            r.info_spec().streams@.len() == 0,
            r.user_spec() is None,
    {
        Context {
            demuxer,
            reader,
            info: GlobalInfo { duration: None, timebase: None, streams: Vec::with_capacity(2) },
            user_private: None,
        }
    }

    /// Returns the underlying demuxer.
    pub fn demuxer(&self) -> (r: &D)
        ensures
            *r == self.demuxer_spec(),
    {
        &self.demuxer
    }

    /// Returns the data source.
    pub fn reader(&self) -> (r: &R)
        ensures
            *r == self.reader_spec(),
    {
        &self.reader
    }

    /// Returns the data source, to read from it or seek it.
    pub fn reader_mut(&mut self) -> (r: &mut R)
        ensures
            *r == old(self).reader_spec(),
            final(self).reader_spec() == *final(r),
            final(self).demuxer_spec() == old(self).demuxer_spec(),
            final(self).info_spec() == old(self).info_spec(),
            final(self).user_spec() == old(self).user_spec(),
    {
        &mut self.reader
    }

    /// Lets the demuxer read stream headers and global information from
    /// the data source; the result says where the source should go next.
    /// It is what the demuxer's `read_headers` gives, with the demuxer, the
    /// data source and the global information changed as it changes them.
    pub fn read_headers_step(&mut self) -> (r: Result<SeekFrom>)
        ensures
            exists|md: &mut D, mr: &mut R, mi: &mut GlobalInfo|
                {
                    &&& *md == old(self).demuxer_spec()
                    &&& *final(md) == final(self).demuxer_spec()
                    &&& *mr == old(self).reader_spec()
                    &&& *final(mr) == final(self).reader_spec()
                    &&& *mi == old(self).info_spec()
                    &&& *final(mi) == final(self).info_spec()
                    &&& call_ensures(D::read_headers::<R>, (md, mr, mi), r)
                },
            final(self).user_spec() == old(self).user_spec(),
    {
        self.demuxer.read_headers(&mut self.reader, &mut self.info)
    }

    /// Lets the demuxer read an event from the data source; the result says
    /// where the source should go next, and the event to be applied. It is
    /// what the demuxer's `read_event` gives, with the demuxer and the data
    /// source changed as it changes them.
    pub fn read_event_step(&mut self) -> (r: Result<(SeekFrom, Event)>)
        ensures
            exists|md: &mut D, mr: &mut R|
                {
                    &&& *md == old(self).demuxer_spec()
                    &&& *final(md) == final(self).demuxer_spec()
                    &&& *mr == old(self).reader_spec()
                    &&& *final(mr) == final(self).reader_spec()
                    &&& call_ensures(D::read_event::<R>, (md, mr), r)
                },
            final(self).info_spec() == old(self).info_spec(),
            final(self).user_spec() == old(self).user_spec(),
    {
        self.demuxer.read_event(&mut self.reader)
    }

    /// What to do after reading an event failed with `e`: when the demuxer
    /// asked for more data than the buffer holds, grow it by that much and
    /// refill it; when it already holds enough, demux again; other errors
    /// end demuxing.
    pub fn event_recovery(&self, e: Error) -> (r: Recovery)
        ensures
            match e {
                Error::MoreDataNeeded(needed) => if self.reader_spec().buffered().len() >= needed {
                    r == Recovery::Retry
                } else {
                    r == Recovery::Grow(needed)
                },
                _ => r == Recovery::Fail(e),
            },
    {
        match e {
            Error::MoreDataNeeded(needed) => {
                let len = self.reader.data().len();
                if len >= needed {
                    Recovery::Retry
                } else {
                    Recovery::Grow(needed)
                }
            },
            other => Recovery::Fail(other),
        }
    }

    /// Grows the buffer of the data source by `len` bytes.
    pub fn grow_reader(&mut self, len: usize)
        requires
            old(self).reader_spec().buffer_size() + len <= usize::MAX,
        ensures
            final(self).reader_spec().buffer_size() == old(self).reader_spec().buffer_size() + len,
            final(self).reader_spec().buffered() == old(self).reader_spec().buffered(),
            final(self).demuxer_spec() == old(self).demuxer_spec(),
            final(self).info_spec() == old(self).info_spec(),
            final(self).user_spec() == old(self).user_spec(),
    {
        self.reader.grow(len);
    }

    /// Takes into account an event read by the demuxer: a new stream joins
    /// the streams of the media file; a request for more data becomes the
    /// `MoreDataNeeded` error; a packet without a timebase gets the one of
    /// the first stream with its stream index, if there is one.
    pub fn apply_event(&mut self, event: Event) -> (r: Result<Event>)
        ensures
            final(self).demuxer_spec() == old(self).demuxer_spec(),
            final(self).reader_spec() == old(self).reader_spec(),
            final(self).user_spec() == old(self).user_spec(),
            final(self).info_spec().duration == old(self).info_spec().duration,
            final(self).info_spec().timebase == old(self).info_spec().timebase,
            r == applied(old(self).info_spec().streams@, event),
            event is NewStream ==> {
                &&& final(self).info_spec().streams@.len() == old(self).info_spec().streams@.len()
                    + 1
                &&& final(self).info_spec().streams@.take(
                    old(self).info_spec().streams@.len() as int,
                ) == old(self).info_spec().streams@
                &&& same_stream(
                    final(self).info_spec().streams@.last(),
                    event->NewStream_0,
                )
            },
            !(event is NewStream) ==> final(self).info_spec().streams@
                == old(self).info_spec().streams@,
    {
        match event {
            Event::NewStream(st) => {
                self.info.streams.push(st.clone());
                assert(self.info.streams@.take(old(self).info.streams@.len() as int)
                    =~= old(self).info.streams@);
                Ok(Event::NewStream(st))
            },
            Event::MoreDataNeeded(size) => Err(Error::MoreDataNeeded(size)),
            Event::NewPacket(pkt) => Ok(Event::NewPacket(fill_timebase(&self.info.streams, pkt))),
            other => Ok(other),
        }
    }
}

/// Format descriptor.
///
/// Contains information on a format and its own demuxer.
#[derive(Clone, Debug, PartialEq, Eq)]
pub struct Descr {
    /// Format name.
    pub name: &'static str,
    /// Demuxer name.
    pub demuxer: &'static str,
    /// Format description.
    pub description: &'static str,
    /// Format media file extensions.
    pub extensions: &'static [&'static str],
    /// Format MIME.
    pub mime: &'static [&'static str],
}

/// Used to get a format descriptor and create a new demuxer.
pub trait Descriptor {
    /// The specific type of the demuxer.
    type OutputDemuxer: Demuxer;

    /// Creates a new demuxer for the requested format.
    fn create(&self) -> Self::OutputDemuxer;

    /// Returns the descriptor of a format.
    fn describe(&self) -> &Descr;

    /// Returns a score which represents how much the input data are associated
    /// to a format.
    fn probe(&self, data: &[u8]) -> u8;
}

/// Maximum data size to probe a format.
pub const PROBE_DATA: usize = 4096;

/// Data whose probe score is equal or greater than the value of this constant
/// surely is associated to the format currently being analyzed.
pub const PROBE_SCORE_EXTENSION: u8 = 50;

/// `i` is where `scores` first reaches its maximum.
pub open spec fn first_best(scores: Seq<u8>, i: int) -> bool {
    &&& 0 <= i < scores.len()
    &&& forall|j: int| 0 <= j < scores.len() ==> scores[j] <= scores[i]
    &&& forall|j: int| 0 <= j < i ==> scores[j] < scores[i]
}

/// The format picked from the probe scores of the candidate formats: the
/// first with the highest score, if that score exceeds
/// `PROBE_SCORE_EXTENSION`.
pub fn best_candidate(scores: &[u8]) -> (r: Option<usize>)
    ensures
        match r {
            Some(i) => first_best(scores@, i as int) && scores@[i as int] > PROBE_SCORE_EXTENSION,
            None => forall|j: int| 0 <= j < scores@.len() ==> scores@[j] <= PROBE_SCORE_EXTENSION,
        },
{
    let mut max: u8 = 0;
    let mut candidate: Option<usize> = None;
    let mut k: usize = 0;
    while k < scores.len()
        invariant
            k <= scores@.len(),
            forall|j: int| 0 <= j < k ==> scores@[j] <= max,
            match candidate {
                Some(i) => i < k && scores@[i as int] == max && forall|j: int|
                    0 <= j < i ==> scores@[j] < max,
                None => max == 0,
            },
        decreases scores@.len() - k,
    {
        let score = scores[k];
        if score > max {
            max = score;
            candidate = Some(k);
        }
        k += 1;
    }
    if max > PROBE_SCORE_EXTENSION {
        candidate
    } else {
        None
    }
}

/// Used to define different ways to probe a format.
pub trait Probe<T: Descriptor + ?Sized> {
    /// Probes whether the input data is associated to a determined format.
    fn probe(&self, data: &[u8]) -> Option<&'static T>;
}

/// `scores` are what `probe` gave `data` for each of `descs`, in order.
pub open spec fn scored_by<T: Descriptor + ?Sized>(
    descs: Seq<&'static T>,
    data: &[u8],
    scores: Seq<u8>,
) -> bool {
    &&& scores.len() == descs.len()
    &&& forall|i: int|
        0 <= i < descs.len() ==> call_ensures(T::probe, (descs[i], data), #[trigger] scores[i])
}

/// `r` is the first of `descs` with the highest of `scores`, when that
/// score exceeds `PROBE_SCORE_EXTENSION`, and `None` otherwise.
pub open spec fn picked<T: ?Sized>(
    descs: Seq<&'static T>,
    scores: Seq<u8>,
    r: Option<&'static T>,
) -> bool {
    match r {
        Some(d) => exists|i: int|
            first_best(scores, i) && scores[i] > PROBE_SCORE_EXTENSION && descs[i] == d,
        None => forall|j: int| 0 <= j < scores.len() ==> scores[j] <= PROBE_SCORE_EXTENSION,
    }
}

impl<T: Descriptor + ?Sized> Probe<T> for [&'static T] {
    /// The format whose descriptor gives `data` the highest score, the first
    /// of them on a tie, if that score exceeds `PROBE_SCORE_EXTENSION`.
    fn probe(&self, data: &[u8]) -> (r: Option<&'static T>)
        ensures
            exists|scores: Seq<u8>|
                #[trigger] scored_by(self@, data, scores) && picked(self@, scores, r),
    {
        let mut scores: Vec<u8> = Vec::with_capacity(self.len());
        let mut k: usize = 0;
        while k < self.len()
            invariant
                k <= self@.len(),
                scored_by(self@.take(k as int), data, scores@),
            decreases self@.len() - k,
        {
            let desc: &'static T = self[k];
            let score = desc.probe(data);
            proof {
                assert(self@.take(k + 1) == self@.take(k as int).push(desc));
            }
            scores.push(score);
            k += 1;
        }
        assert(self@.take(k as int) == self@);
        match best_candidate(scores.as_slice()) {
            Some(i) => Some(self[i]),
            None => None,
        }
    }
}

/// Description of a demuxer: its name, description, file extensions and
/// MIME types.
pub struct DemuxerDescription {
    /// Demuxer name.
    pub name: &'static str,
    /// Demuxer description.
    pub description: &'static str,
    /// Media file extensions.
    pub extensions: &'static [&'static str],
    /// MIME types.
    pub mime: &'static [&'static str],
}

/// Probe threshold values
#[derive(Clone, Copy, Debug, PartialEq, Eq, Structural)]
#[allow(non_camel_case_types, clippy::upper_case_acronyms)]
pub enum Score {
    /// Minimum acceptable value, a file matched just by the extension
    EXTENSION,
    /// The underlying layer provides the information, trust it up to a point
    MIME,
    /// The data actually match a format structure
    MAX,
}

impl Score {
    /// The score value of the threshold.
    pub fn value(self) -> (r: u8)
        ensures
            r == match self {
                Score::EXTENSION => 50u8,
                Score::MIME => 75u8,
                Score::MAX => 100u8,
            },
    {
        match self {
            Score::EXTENSION => 50,
            Score::MIME => 75,
            Score::MAX => 100,
        }
    }
}

} // verus!
