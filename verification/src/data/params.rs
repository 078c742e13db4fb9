//! Video and audio definitions.
use vstd::prelude::*;
use crate::data::audiosample::{ChannelMap, Soniton};
use crate::data::pixel::Formaton;
use crate::data::buffer_ref::share;
use std::sync::Arc;

verus! {

/// Video stream information.
#[derive(Debug, PartialEq, Eq)]
pub struct VideoInfo {
    /// Picture width.
    pub width: usize,
    /// Picture height.
    pub height: usize,
    /// Picture pixel format.
    pub format: Option<Arc<Formaton>>,
}

/// Audio stream information.
#[derive(Debug, PartialEq)]
pub struct AudioInfo {
    /// Audio sample rate.
    pub rate: usize,
    /// Audio sequence of channels.
    pub map: Option<ChannelMap>,
    /// Audio sample format.
    pub format: Option<Arc<Soniton>>,
}

/// Possible stream information types.
#[derive(Debug, PartialEq)]
pub enum MediaKind {
    /// Video codec information.
    Video(VideoInfo),
    /// Audio codec information.
    Audio(AudioInfo),
}

/// Possible codec parameters.
#[derive(Debug, PartialEq)]
pub struct CodecParams {
    /// Stream information type.
    pub kind: Option<MediaKind>,
    /// Codec id.
    pub codec_id: Option<String>,
    /// Codec additional data.
    pub extradata: Option<Vec<u8>>,
    /// Codec bit-rate.
    pub bit_rate: usize,
    /// Number of samples the decoder must process
    /// before outputting valid data.
    pub convergence_window: usize,
    /// Number of samples the codec needs to process
    /// before returning data.
    pub delay: usize,
}

/// `a` and `b` are both absent, or both present with the same channels.
pub open spec fn same_map(a: Option<ChannelMap>, b: Option<ChannelMap>) -> bool {
    match (a, b) {
        (Some(x), Some(y)) => x@ == y@,
        (None, None) => true,
        _ => false,
    }
}

/// `a` and `b` hold the same audio information.
pub open spec fn same_audio(a: AudioInfo, b: AudioInfo) -> bool {
    &&& a.rate == b.rate
    &&& same_map(a.map, b.map)
    &&& a.format == b.format
}

/// `a` and `b` hold the same stream information.
pub open spec fn same_kind(a: MediaKind, b: MediaKind) -> bool {
    match (a, b) {
        (MediaKind::Video(x), MediaKind::Video(y)) => x == y,
        (MediaKind::Audio(x), MediaKind::Audio(y)) => same_audio(x, y),
        _ => false,
    }
}

/// `a` and `b` hold the same codec parameters.
pub open spec fn same_params(a: CodecParams, b: CodecParams) -> bool {
    &&& match (a.kind, b.kind) {
        (Some(x), Some(y)) => same_kind(x, y),
        (None, None) => true,
        _ => false,
    }
    &&& a.codec_id == b.codec_id
    &&& match (a.extradata, b.extradata) {
        (Some(x), Some(y)) => x@ == y@,
        (None, None) => true,
        _ => false,
    }
    &&& a.bit_rate == b.bit_rate
    &&& a.convergence_window == b.convergence_window
    &&& a.delay == b.delay
}

impl Clone for VideoInfo {
    /// The same information; the clone shares the pixel format.
    fn clone(&self) -> (r: Self)
        ensures
            r == *self,
    {
        let format = match &self.format {
            Some(f) => Some(share(f)),
            None => None,
        };
        VideoInfo { width: self.width, height: self.height, format }
    }
}

impl Clone for AudioInfo {
    /// The same information; the clone shares the sample format.
    fn clone(&self) -> (r: Self)
        ensures
            same_audio(r, *self),
    {
        let map = match &self.map {
            Some(m) => Some(m.clone()),
            None => None,
        };
        let format = match &self.format {
            Some(f) => Some(share(f)),
            None => None,
        };
        AudioInfo { rate: self.rate, map, format }
    }
}

impl Clone for MediaKind {
    /// The same stream information.
    fn clone(&self) -> (r: Self)
        ensures
            same_kind(r, *self),
    {
        match self {
            MediaKind::Video(v) => MediaKind::Video(v.clone()),
            MediaKind::Audio(a) => MediaKind::Audio(a.clone()),
        }
    }
}

impl Clone for CodecParams {
    /// The same codec parameters.
    fn clone(&self) -> (r: Self)
        ensures
            same_params(r, *self),
    {
        let kind = match &self.kind {
            Some(k) => Some(k.clone()),
            None => None,
        };
        let codec_id = match &self.codec_id {
            Some(c) => Some(c.clone()),
            None => None,
        };
        let extradata = match &self.extradata {
            Some(e) => Some(e.clone()),
            None => None,
        };
        CodecParams {
            kind,
            codec_id,
            extradata,
            bit_rate: self.bit_rate,
            convergence_window: self.convergence_window,
            delay: self.delay,
        }
    }
}

} // verus!
