//! Data structs representing a video, audio, or subtitle stream.
use vstd::prelude::*;
use crate::data::buffer_ref::share;
use crate::data::params::{same_params, CodecParams};
use crate::data::rational::Rational64;
use crate::data::timeinfo::UserData;
use std::sync::Arc;

verus! {

/// A video, audio, or subtitle stream of a media file.
#[derive(Debug)]
pub struct Stream {
    /// Format-specific track identifier.
    ///
    /// Negative if not supported by the underlying format or if the
    /// default progression should be used.
    ///
    /// Must be unique
    pub id: isize,
    /// Position of the stream in the list of streams of a media file.
    pub index: usize,
    /// Codec parameters of the stream.
    pub params: CodecParams,
    /// Start timestamp.
    pub start: Option<u64>,
    /// Duration.
    pub duration: Option<u64>,
    /// Timebase of the timestamps of the stream.
    pub timebase: Rational64,
    /// User Private field.
    pub user_private: Option<Arc<UserData>>,
}

/// `a` and `b` describe the same stream.
pub open spec fn same_stream(a: Stream, b: Stream) -> bool {
    &&& a.id == b.id
    &&& a.index == b.index
    &&& same_params(a.params, b.params)
    &&& a.start == b.start
    &&& a.duration == b.duration
    &&& a.timebase == b.timebase
    &&& a.user_private == b.user_private
}

impl Clone for Stream {
    /// The same stream; the clone shares the user private data.
    fn clone(&self) -> (r: Self)
        ensures
            same_stream(r, *self),
    {
        let user_private = match &self.user_private {
            Some(u) => Some(share(u)),
            None => None,
        };
        Stream {
            id: self.id,
            index: self.index,
            params: self.params.clone(),
            start: self.start,
            duration: self.duration,
            timebase: self.timebase,
            user_private,
        }
    }
}

impl Stream {
    /// Creates a stream with the given parameters and timebase, with no
    /// identifier, at index 0, with no start and no duration.
    pub fn from_params(params: &CodecParams, timebase: Rational64) -> (r: Self)
        ensures
            r.id == -1,
            r.index == 0,
            same_params(r.params, *params),
            r.start is None,
            r.duration is None,
            r.timebase == timebase,
            r.user_private is None,
    {
        Stream {
            id: -1,
            index: 0,
            params: params.clone(),
            start: None,
            duration: None,
            timebase,
            user_private: None,
        }
    }

    /// The codec extra data of the stream, if any.
    pub fn get_extradata<'a>(&'a self) -> (r: Option<&'a [u8]>)
        ensures
            match self.params.extradata {
                Some(e) => r is Some && r.unwrap()@ == e@,
                None => r is None,
            },
    {
        match &self.params.extradata {
            Some(e) => Some(e.as_slice()),
            None => None,
        }
    }
}

/// A group of streams of a media file over a span of time.
pub struct StreamGroup<'a> {
    /// Group identifier.
    pub id: usize,
    /// Start timestamp.
    pub start: u64,
    /// End timestamp.
    pub end: u64,
    /// The streams of the group.
    pub streams: &'a [Stream],
}

} // verus!
