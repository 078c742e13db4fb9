//! Common data structs reused between muxers and demuxers.
use vstd::prelude::*;
use crate::data::rational::Rational64;
use crate::format::stream::Stream;

verus! {

/// Global media file information.
#[derive(Debug, Clone)]
pub struct GlobalInfo {
    /// Duration of a media file.
    ///
    /// If `None`, the duration of a media file is not considered.
    pub duration: Option<u64>,
    /// Timebase associated to a media file.
    ///
    /// If `None`, the timebase of a media file is not considered.
    pub timebase: Option<Rational64>,
    /// List of streams present in a media file.
    pub streams: Vec<Stream>,
}

/// A stream as it is stored at position `idx` of a stream list: it is
/// given that index, and, when it has no format-specific identifier (a
/// negative one), the index it carried before as identifier.
pub open spec fn registered(st: Stream, idx: int) -> Stream {
    Stream {
        id: if st.id < 0 {
            st.index as isize
        } else {
            st.id
        },
        index: idx as usize,
        ..st
    }
}

impl GlobalInfo {
    /// Adds a stream to the list of streams present in a media file.
    pub fn add_stream(&mut self, st: Stream) -> (r: usize)
        ensures
            r == old(self).streams.len(),
            final(self).streams@ == old(self).streams@.push(registered(st, r as int)),
            final(self).duration == old(self).duration,
            final(self).timebase == old(self).timebase,
    {
        let mut st = st;
        let idx = self.streams.len();

        if st.id < 0 {
            st.id = st.index as isize;
        }
        st.index = idx;

        self.streams.push(st);

        idx
    }
}

} // verus!
