//! Packets and decoded frames functionality.
use vstd::prelude::*;
use crate::align::align_spec;
use crate::data::audiosample::{audio_bytes, audio_size_ok, ChannelMap, Soniton};
use crate::data::pixel::{
    ceil_shift, depth_sum, linesize_ok, spec_linesize, subsample_ok, Chromaton, Formaton,
};
use crate::data::timeinfo::TimeInfo;
use crate::data::buffer_ref::share;
use bytes::BytesMut;
use std::sync::Arc;
use vstd::std_specs::convert::IntoSpec;
use vstd::std_specs::cmp::PartialEqSpecImpl;
use crate::data::pixel::same_format;
use crate::text::{decimal, decimal_string};

verus! {

/// Growable byte buffers of the `bytes` crate, which back the planes of a
/// frame.
#[verifier::external_type_specification]
#[verifier::external_body]
pub struct ExBytesMut(bytes::BytesMut);

/// The bytes a `BytesMut` holds.
pub uninterp spec fn bytes_content(b: BytesMut) -> Seq<u8>;

/// `BytesMut::zeroed`: a buffer of `len` zero bytes.
#[verifier::external_body]
fn zeroed_bytes(len: usize) -> (r: BytesMut)
    ensures
        bytes_content(r) == Seq::new(len as nat, |i: int| 0u8),
{
    BytesMut::zeroed(len)
}

/// `BytesMut::split_to`: the first `at` bytes leave the buffer and are
/// returned; the buffer keeps the rest. The crate panics when `at` exceeds
/// the length.
#[verifier::external_body]
fn split_bytes_to(b: &mut BytesMut, at: usize) -> (r: BytesMut)
    requires
        at <= bytes_content(*old(b)).len(),
    ensures
        bytes_content(r) == bytes_content(*old(b)).take(at as int),
        bytes_content(*final(b)) == bytes_content(*old(b)).skip(at as int),
{
    b.split_to(at)
}

/// `Deref` of `BytesMut`: its bytes as a slice.
#[verifier::external_body]
fn bytes_slice(b: &BytesMut) -> (r: &[u8])
    ensures
        r@ == bytes_content(*b),
{
    &b[..]
}

/// `DerefMut` of `BytesMut`: its bytes as a mutable slice; what is written
/// to the slice is what the buffer holds afterwards.
#[verifier::external_body]
fn bytes_slice_mut(b: &mut BytesMut) -> (r: &mut [u8])
    ensures
        r@ == bytes_content(*old(b)),
        bytes_content(*final(b)) == final(r)@,
{
    &mut b[..]
}

/// Frame errors.
#[derive(Clone, Copy, Debug, PartialEq, Eq, Hash, Structural)]
pub enum FrameError {
    /// Invalid frame index.
    InvalidIndex,
    /// Invalid frame conversion.
    InvalidConversion,
}

/// A list of recognized frame types.
#[derive(Debug, PartialEq, Eq, Hash, Structural)]
#[allow(clippy::upper_case_acronyms)]
pub enum FrameType {
    /// Intra frame type.
    I,
    /// Inter frame type.
    P,
    /// Bidirectionally predicted frame.
    B,
    /// Skip frame.
    ///
    /// When such frame is encountered, then last frame should be used again
    /// if it is needed.
    SKIP,
    /// Some other frame type.
    OTHER,
}

impl Clone for FrameType {
    /// The same frame type.
    fn clone(&self) -> (r: Self)
        ensures
            r == *self,
    {
        match self {
            FrameType::I => FrameType::I,
            FrameType::P => FrameType::P,
            FrameType::B => FrameType::B,
            FrameType::SKIP => FrameType::SKIP,
            FrameType::OTHER => FrameType::OTHER,
        }
    }
}

/// Bytes of a plane of chroma `c` in a `w`×`h` picture, lines aligned to `a`.
pub open spec fn plane_bytes(c: Chromaton, w: usize, h: usize, a: usize) -> int {
    spec_linesize(c, w, a) * ceil_shift(h as int, c.vertical_subsampling as nat)
}

/// The size of a plane of chroma `c` is computable.
pub open spec fn plane_ok(c: Chromaton, w: usize, h: usize, a: usize) -> bool {
    &&& linesize_ok(c, w, a)
    &&& subsample_ok(h, c.vertical_subsampling)
    &&& plane_bytes(c, w, h, a) <= usize::MAX
}

/// Bytes of all the planes present in `planes`.
pub open spec fn planes_bytes(planes: Seq<Option<Chromaton>>, w: usize, h: usize, a: usize) -> int
    decreases planes.len(),
{
    if planes.len() == 0 {
        0
    } else {
        planes_bytes(planes.drop_last(), w, h, a) + match planes.last() {
            Some(c) => plane_bytes(c, w, h, a),
            None => 0,
        }
    }
}

/// The size of every plane present in `planes`, and their total, are
/// computable.
pub open spec fn planes_ok(planes: Seq<Option<Chromaton>>, w: usize, h: usize, a: usize) -> bool {
    &&& forall|i: int|
        0 <= i < planes.len() && (#[trigger] planes[i]) is Some ==> plane_ok(
            planes[i].unwrap(),
            w,
            h,
            a,
        )
    &&& planes_bytes(planes, w, h, a) <= usize::MAX
}

/// Size and stride of each plane present in `planes`, in order.
pub open spec fn video_layout(planes: Seq<Option<Chromaton>>, w: usize, h: usize, a: usize) -> Seq<
    (int, int),
>
    decreases planes.len(),
{
    if planes.len() == 0 {
        Seq::empty()
    } else {
        let rest = video_layout(planes.drop_last(), w, h, a);
        match planes.last() {
            Some(c) => rest.push((plane_bytes(c, w, h, a), spec_linesize(c, w, a) as int)),
            None => rest,
        }
    }
}

proof fn lemma_plane_bytes_nonneg(c: Chromaton, w: usize, h: usize, a: usize)
    requires
        subsample_ok(h, c.vertical_subsampling),
    ensures
        plane_bytes(c, w, h, a) >= 0,
{
    vstd::arithmetic::power2::lemma_pow2_pos(c.vertical_subsampling as nat);
    let k = vstd::arithmetic::power2::pow2(c.vertical_subsampling as nat) as int;
    assert((h + k - 1) / k >= 0) by (nonlinear_arith)
        requires
            k >= 1,
            h >= 0,
    ;
    assert(spec_linesize(c, w, a) * ceil_shift(h as int, c.vertical_subsampling as nat) >= 0)
        by (nonlinear_arith)
        requires
            ceil_shift(h as int, c.vertical_subsampling as nat) >= 0,
            spec_linesize(c, w, a) >= 0,
    ;
}

proof fn lemma_planes_bytes_prefix(
    planes: Seq<Option<Chromaton>>,
    w: usize,
    h: usize,
    a: usize,
    k: int,
)
    requires
        0 <= k <= planes.len(),
        forall|i: int|
            0 <= i < planes.len() && (#[trigger] planes[i]) is Some ==> plane_ok(
                planes[i].unwrap(),
                w,
                h,
                a,
            ),
    ensures
        0 <= planes_bytes(planes.take(k), w, h, a) <= planes_bytes(planes, w, h, a),
    decreases planes.len(),
{
    if planes.len() > 0 {
        let init = planes.drop_last();
        if let Some(c) = planes.last() {
            assert(planes[planes.len() - 1] is Some);
            lemma_plane_bytes_nonneg(c, w, h, a);
        }
        if k < planes.len() {
            assert(init.take(k) == planes.take(k));
            lemma_planes_bytes_prefix(init, w, h, a, k);
        } else {
            assert(planes.take(k) == planes);
            lemma_planes_bytes_prefix(init, w, h, a, init.len() as int);
            assert(init.take(init.len() as int) == init);
        }
    } else {
        assert(planes.take(k) == planes);
    }
}

/// Video stream information.
#[derive(Debug)]
pub struct VideoInfo {
    /// Frame width.
    pub width: usize,
    /// Frame height.
    pub height: usize,
    /// Frame is stored downside up.
    pub flipped: bool,
    /// Frame type.
    pub frame_type: FrameType,
    /// Frame pixel format.
    pub format: Arc<Formaton>,
    /// Declared bits per sample.
    pub bits: u8,
}

impl Clone for VideoInfo {
    /// The same information; the clone shares the pixel format.
    fn clone(&self) -> (r: Self)
        ensures
            r == *self,
    {
        VideoInfo {
            width: self.width,
            height: self.height,
            flipped: self.flipped,
            frame_type: self.frame_type.clone(),
            format: share(&self.format),
            bits: self.bits,
        }
    }
}

impl VideoInfo {
    /// Constructs a new `VideoInfo` instance; its declared bits per sample
    /// are the sum of the bit depths of the planes of the format.
    pub fn new(
        width: usize,
        height: usize,
        flipped: bool,
        frame_type: FrameType,
        format: Arc<Formaton>,
    ) -> (r: Self)
        requires
            depth_sum(format.pixel_chroma_info@) <= u8::MAX,
        ensures
            r == (VideoInfo {
                width,
                height,
                flipped,
                frame_type,
                format,
                bits: depth_sum(format.pixel_chroma_info@) as u8,
            }),
    {
        let bits = format.pixel_bit_depths_sum();
        VideoInfo { width, height, flipped, frame_type, format, bits }
    }

    /// Returns frame width.
    pub fn get_width(&self) -> (r: usize)
        ensures
            r == self.width,
    {
        self.width
    }

    /// Returns frame height.
    pub fn get_height(&self) -> (r: usize)
        ensures
            r == self.height,
    {
        self.height
    }

    /// Returns frame orientation.
    pub fn is_flipped(&self) -> (r: bool)
        ensures
            r == self.flipped,
    {
        self.flipped
    }

    /// Returns frame type.
    pub fn get_frame_type(&self) -> (r: &FrameType)
        ensures
            *r == self.frame_type,
    {
        &self.frame_type
    }

    /// Returns frame pixel format.
    pub fn get_format(&self) -> (r: Formaton)
        ensures
            r == *self.format,
    {
        *self.format
    }

    /// Sets new frame width.
    pub fn set_width(&mut self, width: usize)
        ensures
            *final(self) == (VideoInfo { width, ..*old(self) }),
    {
        self.width = width;
    }

    /// Sets new frame height.
    pub fn set_height(&mut self, height: usize)
        ensures
            *final(self) == (VideoInfo { height, ..*old(self) }),
    {
        self.height = height;
    }

    /// Returns video stream size with the specified alignment: the bytes
    /// of all its planes.
    pub fn size(&self, align: usize) -> (r: usize)
        requires
            planes_ok(self.format.pixel_chroma_info@, self.width, self.height, align),
        ensures
            r == planes_bytes(self.format.pixel_chroma_info@, self.width, self.height, align),
    {
        pictures_size(&self.format, self.width, self.height, align)
    }
}

/// The bytes of all the planes of a `width`×`height` picture of pixel
/// format `format`, lines aligned to `align`.
fn pictures_size(format: &Formaton, width: usize, height: usize, align: usize) -> (r: usize)
    requires
        planes_ok(format.pixel_chroma_info@, width, height, align),
    ensures
        r == planes_bytes(format.pixel_chroma_info@, width, height, align),
{
    let ghost planes = format.pixel_chroma_info@;
    let mut size: usize = 0;
    let mut i: usize = 0;
    while i < 5
        invariant
            i <= 5,
            planes == format.pixel_chroma_info@,
            planes.len() == 5,
            planes_ok(planes, width, height, align),
            size == planes_bytes(planes.take(i as int), width, height, align),
        decreases 5 - i,
    {
        proof {
            lemma_planes_bytes_prefix(planes, width, height, align, i + 1);
            assert(planes.take(i + 1).drop_last() == planes.take(i as int));
            assert(planes.take(i + 1).last() == planes[i as int]);
        }
        match format.pixel_chroma_info[i] {
            Some(c) => {
                assert(planes[i as int] is Some);
                size = size + c.size(width, height, align);
            },
            None => {},
        }
        i = i + 1;
    }
    assert(planes.take(5) == planes);
    size
}

/// Audio stream information contained in a frame.
#[derive(Debug)]
pub struct AudioInfo {
    /// Number of samples.
    pub samples: usize,
    /// Sample rate.
    pub sample_rate: usize,
    /// Sequence of stream channels.
    pub map: ChannelMap,
    /// Audio sample format.
    pub format: Arc<Soniton>,
    /// Length of one audio block in samples.
    ///
    /// None if not present.
    pub block_len: Option<usize>,
}

/// Bytes of the audio of one channel: `samples` samples of format `s`,
/// aligned to `a`.
pub open spec fn channel_bytes(s: Soniton, samples: usize, a: usize) -> int {
    align_spec(audio_bytes(s.bits, s.packed, samples) as usize, a) as int
}

/// `a` and `b` hold the same audio information.
pub open spec fn same_audio_info(a: AudioInfo, b: AudioInfo) -> bool {
    &&& a.samples == b.samples
    &&& a.sample_rate == b.sample_rate
    &&& a.map@ == b.map@
    &&& a.format == b.format
    &&& a.block_len == b.block_len
}

impl Clone for AudioInfo {
    /// The same information; the clone shares the sample format.
    fn clone(&self) -> (r: Self)
        ensures
            same_audio_info(r, *self),
    {
        AudioInfo {
            samples: self.samples,
            sample_rate: self.sample_rate,
            map: self.map.clone(),
            format: share(&self.format),
            block_len: self.block_len,
        }
    }
}

impl AudioInfo {
    /// Constructs a new `AudioInfo` instance.
    pub fn new(
        samples: usize,
        sample_rate: usize,
        map: ChannelMap,
        format: Arc<Soniton>,
        block_len: Option<usize>,
    ) -> (r: Self)
        ensures
            r == (AudioInfo { samples, sample_rate, map, format, block_len }),
    {
        AudioInfo { samples, sample_rate, map, format, block_len }
    }

    /// Returns audio sample rate.
    pub fn get_sample_rate(&self) -> (r: usize)
        ensures
            r == self.sample_rate,
    {
        self.sample_rate
    }

    /// Returns the number of channels.
    pub fn get_channels_number(&self) -> (r: usize)
        ensures
            r == self.map@.len(),
    {
        self.map.len()
    }

    /// Returns sample format.
    pub fn get_format(&self) -> (r: Soniton)
        ensures
            r == *self.format,
    {
        *self.format
    }

    /// Returns number of samples.
    pub fn get_samples(&self) -> (r: usize)
        ensures
            r == self.samples,
    {
        self.samples
    }

    /// Returns one audio block duration in samples.
    pub fn get_block_len(&self) -> (r: Option<usize>)
        ensures
            r == self.block_len,
    {
        self.block_len
    }

    /// Returns audio stream size with the specified alignment: the aligned
    /// bytes of one channel, times the number of channels.
    pub fn size(&self, align: usize) -> (r: usize)
        requires
            audio_size_ok(*self.format, self.samples, align),
            channel_bytes(*self.format, self.samples, align) * self.map@.len() <= usize::MAX,
        ensures
            r == channel_bytes(*self.format, self.samples, align) * self.map@.len(),
    {
        self.format.get_audio_size(self.samples, align) * self.map.len()
    }
}

/// A list of possible stream information types.
#[derive(Clone, Debug, PartialEq)]
pub enum MediaKind {
    /// Video codec information.
    Video(VideoInfo),
    /// Audio codec information.
    Audio(AudioInfo),
}

impl MediaKind {
    /// Returns video stream information, for a video stream.
    pub fn get_video_info(&self) -> (r: Option<VideoInfo>)
        ensures
            r is Some <==> self is Video,
            self is Video ==> r == Some(self->Video_0),
    {
        if let MediaKind::Video(vinfo) = self {
            Some(vinfo.clone())
        } else {
            None
        }
    }

    /// Returns audio stream information, for an audio stream.
    pub fn get_audio_info(&self) -> (r: Option<AudioInfo>)
        ensures
            r is Some <==> self is Audio,
            self is Audio ==> same_audio_info(r->Some_0, self->Audio_0),
    {
        if let MediaKind::Audio(ainfo) = self {
            Some(ainfo.clone())
        } else {
            None
        }
    }

    /// Reports whether the current stream is a video stream.
    pub fn is_video(&self) -> (r: bool)
        ensures
            r == self is Video,
    {
        matches!(self, MediaKind::Video(_))
    }

    /// Reports whether the current stream is an audio stream.
    pub fn is_audio(&self) -> (r: bool)
        ensures
            r == self is Audio,
    {
        matches!(self, MediaKind::Audio(_))
    }
}

impl From<VideoInfo> for MediaKind {
    fn from(v: VideoInfo) -> (r: Self) {
        MediaKind::Video(v)
    }
}

impl vstd::std_specs::convert::FromSpecImpl<VideoInfo> for MediaKind {
    open spec fn obeys_from_spec() -> bool {
        true
    }

    open spec fn from_spec(v: VideoInfo) -> Self {
        MediaKind::Video(v)
    }
}

impl From<AudioInfo> for MediaKind {
    fn from(a: AudioInfo) -> (r: Self) {
        MediaKind::Audio(a)
    }
}

impl vstd::std_specs::convert::FromSpecImpl<AudioInfo> for MediaKind {
    open spec fn obeys_from_spec() -> bool {
        true
    }

    open spec fn from_spec(a: AudioInfo) -> Self {
        MediaKind::Audio(a)
    }
}

/// A series of methods to interact with the planes of frame.
pub trait FrameBuffer: Send + Sync {
    /// Returns the linesize (stride) of the idx-th frame plane.
    fn linesize(&self, idx: usize) -> Result<usize, FrameError>;
    /// Counts the number of frame planes.
    fn count(&self) -> usize;
    /// Returns an immutable buffer with the data associated to the idx-th
    /// frame plane.
    fn as_slice_inner(&self, idx: usize) -> Result<&[u8], FrameError>;
    /// Returns a mutable buffer with the data associated to the idx-th
    /// frame plane.
    fn as_mut_slice_inner(&mut self, idx: usize) -> Result<&mut [u8], FrameError>;
}

/// Alignment of the lines and channels of the planes of a default frame
/// buffer.
pub const ALIGNMENT: usize = 32;

#[derive(Debug)]
struct Plane {
    buf: BytesMut,
    linesize: usize,
}

/// The planes of a frame, carved in order out of one zeroed allocation.
#[derive(Debug)]
pub struct DefaultFrameBuffer {
    buf: BytesMut,
    planes: Vec<Plane>,
}

/// Contents and strides of planes.
pub open spec fn zero_planes(layout: Seq<(int, int)>) -> Seq<(Seq<u8>, usize)> {
    layout.map_values(|p: (int, int)| (Seq::new(p.0 as nat, |j: int| 0u8), p.1 as usize))
}

/// Size and stride of each plane of the audio of `channels` channels of
/// `samples` samples of format `s`: one plane per channel for planar
/// formats, a single one for interleaved formats.
pub open spec fn audio_layout(s: Soniton, samples: usize, channels: nat) -> Seq<(int, int)> {
    let c = channel_bytes(s, samples, ALIGNMENT);
    if s.planar {
        Seq::new(channels, |i: int| (c, c))
    } else {
        seq![(c * channels, c * channels)]
    }
}

/// The frame described by `kind` has computable sizes.
pub open spec fn frame_layout_ok(kind: MediaKind) -> bool {
    match kind {
        MediaKind::Video(v) => planes_ok(v.format.pixel_chroma_info@, v.width, v.height, ALIGNMENT),
        MediaKind::Audio(a) => {
            &&& audio_size_ok(*a.format, a.samples, ALIGNMENT)
            &&& channel_bytes(*a.format, a.samples, ALIGNMENT) * a.map@.len() <= usize::MAX
        },
    }
}

/// Size and stride of each plane of the frame described by `kind`.
pub open spec fn frame_layout(kind: MediaKind) -> Seq<(int, int)> {
    match kind {
        MediaKind::Video(v) => video_layout(v.format.pixel_chroma_info@, v.width, v.height, ALIGNMENT),
        MediaKind::Audio(a) => audio_layout(*a.format, a.samples, a.map@.len()),
    }
}

proof fn lemma_zeros_split(n: nat, k: nat)
    requires
        k <= n,
    ensures
        Seq::new(n, |i: int| 0u8).take(k as int) == Seq::new(k, |i: int| 0u8),
        Seq::new(n, |i: int| 0u8).skip(k as int) == Seq::new((n - k) as nat, |i: int| 0u8),
{
    assert(Seq::new(n, |i: int| 0u8).take(k as int) =~= Seq::new(k, |i: int| 0u8));
    assert(Seq::new(n, |i: int| 0u8).skip(k as int) =~= Seq::new((n - k) as nat, |i: int| 0u8));
}

proof fn lemma_planes_push(planes: Seq<Plane>, p: Plane, layout: Seq<(int, int)>, x: (int, int))
    requires
        planes.map_values(|p: Plane| (bytes_content(p.buf), p.linesize)) == zero_planes(layout),
        x.0 >= 0,
        bytes_content(p.buf) == Seq::new(x.0 as nat, |j: int| 0u8),
        p.linesize == x.1,
    ensures
        planes.push(p).map_values(|p: Plane| (bytes_content(p.buf), p.linesize)) == zero_planes(
            layout.push(x),
        ),
{
    assert(planes.push(p).map_values(|p: Plane| (bytes_content(p.buf), p.linesize))
        =~= planes.map_values(|p: Plane| (bytes_content(p.buf), p.linesize)).push(
        (bytes_content(p.buf), p.linesize),
    ));
    assert(zero_planes(layout.push(x)) =~= zero_planes(layout).push(
        (Seq::new(x.0 as nat, |j: int| 0u8), x.1 as usize),
    ));
}

impl DefaultFrameBuffer {
    /// Contents and stride of each plane.
    pub closed spec fn planes_view(&self) -> Seq<(Seq<u8>, usize)> {
        self.planes@.map_values(|p: Plane| (bytes_content(p.buf), p.linesize))
    }

    /// Allocates zeroed planes for the frame described by `kind`: for
    /// video, one per plane of the pixel format, with the lines of each
    /// aligned to `ALIGNMENT`; for audio, one per channel when the samples
    /// are planar and a single one otherwise.
    pub fn new(kind: &MediaKind) -> (r: DefaultFrameBuffer)
        requires
            frame_layout_ok(*kind),
        ensures
            r.planes_view() == zero_planes(frame_layout(*kind)),
    {
        match kind {
            MediaKind::Video(video) => {
                let size = video.size(ALIGNMENT);
                let mut buf = zeroed_bytes(size);
                let mut planes: Vec<Plane> = Vec::with_capacity(video.format.planes());
                let ghost fmt = video.format.pixel_chroma_info@;
                let w = video.width;
                let h = video.height;
                let mut i: usize = 0;
                while i < 5
                    invariant
                        i <= 5,
                        fmt == video.format.pixel_chroma_info@,
                        fmt.len() == 5,
                        w == video.width,
                        h == video.height,
                        planes_ok(fmt, w, h, ALIGNMENT),
                        size == planes_bytes(fmt, w, h, ALIGNMENT),
                        bytes_content(buf) == Seq::new(
                            (size - planes_bytes(fmt.take(i as int), w, h, ALIGNMENT)) as nat,
                            |j: int| 0u8,
                        ),
                        planes@.map_values(|p: Plane| (bytes_content(p.buf), p.linesize))
                            == zero_planes(video_layout(fmt.take(i as int), w, h, ALIGNMENT)),
                    decreases 5 - i,
                {
                    proof {
                        lemma_planes_bytes_prefix(fmt, w, h, ALIGNMENT, i + 1);
                        lemma_planes_bytes_prefix(fmt, w, h, ALIGNMENT, i as int);
                        assert(fmt.take(i + 1).drop_last() == fmt.take(i as int));
                        assert(fmt.take(i + 1).last() == fmt[i as int]);
                    }
                    match video.format.pixel_chroma_info[i] {
                        Some(c) => {
                            assert(fmt[i as int] is Some);
                            let planesize = c.size(w, h, ALIGNMENT);
                            let linesize = c.linesize(w, ALIGNMENT);
                            let ghost before = bytes_content(buf);
                            proof {
                                lemma_zeros_split(before.len(), planesize as nat);
                            }
                            let pbuf = split_bytes_to(&mut buf, planesize);
                            let ghost old_planes = planes@;
                            planes.push(Plane { buf: pbuf, linesize });
                            proof {
                                let x = (plane_bytes(c, w, h, ALIGNMENT), spec_linesize(c, w, ALIGNMENT) as int);
                                assert(video_layout(fmt.take(i + 1), w, h, ALIGNMENT) == video_layout(
                                    fmt.take(i as int), w, h, ALIGNMENT).push(x));
                                lemma_planes_push(old_planes, Plane { buf: pbuf, linesize },
                                    video_layout(fmt.take(i as int), w, h, ALIGNMENT), x);
                            }
                        },
                        None => {
                            assert(video_layout(fmt.take(i + 1), w, h, ALIGNMENT) == video_layout(
                                fmt.take(i as int),
                                w,
                                h,
                                ALIGNMENT,
                            ));
                        },
                    }
                    i = i + 1;
                }
                assert(fmt.take(5) == fmt);
                DefaultFrameBuffer { buf, planes }
            },
            MediaKind::Audio(audio) => {
                let size = audio.size(ALIGNMENT);
                let mut buf = zeroed_bytes(size);
                let n = audio.map.len();
                if audio.format.planar {
                    let mut planes: Vec<Plane> = Vec::with_capacity(n);
                    let ghost c = channel_bytes(*audio.format, audio.samples, ALIGNMENT);
                    let mut k: usize = 0;
                    while k < n
                        invariant
                            k <= n,
                            n == audio.map@.len(),
                            audio.format.planar,
                            audio_size_ok(*audio.format, audio.samples, ALIGNMENT),
                            c == channel_bytes(*audio.format, audio.samples, ALIGNMENT),
                            size == c * n,
                            c >= 0,
                            bytes_content(buf) == Seq::new((size - c * k) as nat, |j: int| 0u8),
                            planes@.map_values(|p: Plane| (bytes_content(p.buf), p.linesize))
                                == zero_planes(Seq::new(k as nat, |j: int| (c, c))),
                        decreases n - k,
                    {
                        let csize = audio.format.get_audio_size(audio.samples, ALIGNMENT);
                        assert(c * k + c <= c * n) by (nonlinear_arith)
                            requires
                                k < n,
                                c >= 0,
                        ;
                        assert(c * (k + 1) == c * k + c) by (nonlinear_arith);
                        proof {
                            lemma_zeros_split(bytes_content(buf).len(), csize as nat);
                        }
                        let pbuf = split_bytes_to(&mut buf, csize);
                        let ghost old_planes = planes@;
                        planes.push(Plane { buf: pbuf, linesize: csize });
                        proof {
                            assert(Seq::new((k + 1) as nat, |j: int| (c, c)) =~= Seq::new(
                                k as nat, |j: int| (c, c)).push((c, c)));
                            lemma_planes_push(old_planes, Plane { buf: pbuf, linesize: csize },
                                Seq::new(k as nat, |j: int| (c, c)), (c, c));
                        }
                        k = k + 1;
                    }
                    DefaultFrameBuffer { buf, planes }
                } else {
                    let mut planes: Vec<Plane> = Vec::with_capacity(1);
                    proof {
                        lemma_zeros_split(size as nat, size as nat);
                    }
                    let pbuf = split_bytes_to(&mut buf, size);
                    planes.push(Plane { buf: pbuf, linesize: size });
                    assert(planes@.map_values(|p: Plane| (bytes_content(p.buf), p.linesize))
                        =~= zero_planes(frame_layout(*kind)));
                    DefaultFrameBuffer { buf, planes }
                }
            },
        }
    }
}

impl DefaultFrameBuffer {
    /// The bytes of plane `idx`.
    pub fn plane(&self, idx: usize) -> (r: &[u8])
        requires
            idx < self.planes_view().len(),
        ensures
            r@ == self.planes_view()[idx as int].0,
    {
        bytes_slice(&self.planes[idx].buf)
    }

    /// The stride of plane `idx`.
    pub fn plane_linesize(&self, idx: usize) -> (r: usize)
        requires
            idx < self.planes_view().len(),
        ensures
            r == self.planes_view()[idx as int].1,
    {
        self.planes[idx].linesize
    }

    /// Copies the first `width` bytes of the first `height` lines of `src`,
    /// whose lines are `src_linesize` bytes apart, into plane `idx`, as far
    /// as both have lines.
    pub fn copy_into_plane(
        &mut self,
        idx: usize,
        src: &[u8],
        src_linesize: usize,
        width: usize,
        height: usize,
    )
        requires
            idx < old(self).planes_view().len(),
            copy_plane_ok(
                old(self).planes_view()[idx as int].0.len() as int,
                old(self).planes_view()[idx as int].1 as int,
                src@.len() as int,
                src_linesize as int,
                width as int,
                height as int,
            ),
        ensures
            final(self).planes_view() == old(self).planes_view().update(
                idx as int,
                (
                    plane_copy(
                        old(self).planes_view()[idx as int].0,
                        old(self).planes_view()[idx as int].1 as int,
                        src@,
                        src_linesize as int,
                        width as int,
                        height as int,
                    ),
                    old(self).planes_view()[idx as int].1,
                ),
            ),
    {
        let ghost old_planes = self.planes@;
        let mut plane = Plane { buf: zeroed_bytes(0), linesize: 0 };
        std::mem::swap(&mut plane, &mut self.planes[idx]);
        let linesize = plane.linesize;
        let dst = bytes_slice_mut(&mut plane.buf);
        copy_plane(dst, linesize, src, src_linesize, width, height);
        std::mem::swap(&mut plane, &mut self.planes[idx]);
        assert(self.planes@ == old_planes.update(idx as int, self.planes@[idx as int]));
        assert(self.planes_view() =~= old(self).planes_view().update(
            idx as int,
            (bytes_content(self.planes@[idx as int].buf), self.planes@[idx as int].linesize),
        ));
    }
}

impl FrameBuffer for DefaultFrameBuffer {
    fn linesize(&self, idx: usize) -> (r: Result<usize, FrameError>)
        ensures
            idx < self.planes_view().len() ==> r == Ok::<usize, FrameError>(
                self.planes_view()[idx as int].1,
            ),
            idx >= self.planes_view().len() ==> r == Err::<usize, FrameError>(
                FrameError::InvalidIndex,
            ),
    {
        if idx < self.planes.len() {
            Ok(self.planes[idx].linesize)
        } else {
            Err(FrameError::InvalidIndex)
        }
    }

    fn count(&self) -> (r: usize)
        ensures
            r == self.planes_view().len(),
    {
        self.planes.len()
    }

    fn as_slice_inner(&self, idx: usize) -> (r: Result<&[u8], FrameError>)
        ensures
            idx < self.planes_view().len() ==> (r matches Ok(s) && s@ == self.planes_view()[idx as int].0),
            idx >= self.planes_view().len() ==> (r matches Err(e) && e == FrameError::InvalidIndex),
    {
        if idx < self.planes.len() {
            Ok(bytes_slice(&self.planes[idx].buf))
        } else {
            Err(FrameError::InvalidIndex)
        }
    }

    fn as_mut_slice_inner(&mut self, idx: usize) -> (r: Result<&mut [u8], FrameError>)
        ensures
            idx < old(self).planes_view().len() ==> (r matches Ok(s) && s@ == old(
                self,
            ).planes_view()[idx as int].0),
            r matches Ok(s) ==> final(self).planes_view() == old(self).planes_view().update(
                idx as int,
                (final(s)@, old(self).planes_view()[idx as int].1),
            ),
            idx >= old(self).planes_view().len() ==> (r matches Err(e) && e == FrameError::InvalidIndex),
            r is Err ==> final(self).planes_view() == old(self).planes_view(),
    {
        if idx < self.planes.len() {
            let plane = &mut self.planes[idx];
            Ok(bytes_slice_mut(&mut plane.buf))
        } else {
            Err(FrameError::InvalidIndex)
        }
    }
}

/// Line `i` lies in both planes and is among the first `height`: it is
/// copied by `copy_plane`.
pub open spec fn line_copied(i: int, dlen: int, dls: int, slen: int, sls: int, height: int) -> bool {
    0 <= i < height && i * dls < dlen && i * sls < slen
}

/// The strides are positive, and each copied line holds `width` bytes in
/// both planes.
pub open spec fn copy_plane_ok(
    dlen: int,
    dls: int,
    slen: int,
    sls: int,
    width: int,
    height: int,
) -> bool {
    &&& dls > 0
    &&& sls > 0
    &&& forall|i: int|
        #[trigger] line_copied(i, dlen, dls, slen, sls, height) ==> {
            &&& width <= dls
            &&& width <= sls
            &&& i * dls + width <= dlen
            &&& i * sls + width <= slen
        }
}

/// The destination plane after its copied lines got the first `width` bytes
/// of the matching source lines.
pub open spec fn plane_copy(
    dst: Seq<u8>,
    dls: int,
    src: Seq<u8>,
    sls: int,
    width: int,
    height: int,
) -> Seq<u8> {
    Seq::new(
        dst.len(),
        |j: int|
            if line_copied(j / dls, dst.len() as int, dls, src.len() as int, sls, height) && j % dls
                < width {
                src[(j / dls) * sls + j % dls]
            } else {
                dst[j]
            },
    )
}

/// The destination plane after lines below `rows`, and `cols` bytes of line
/// `rows`, are copied.
spec fn partial_copy(
    dst: Seq<u8>,
    dls: int,
    src: Seq<u8>,
    sls: int,
    width: int,
    rows: int,
    cols: int,
) -> Seq<u8> {
    Seq::new(
        dst.len(),
        |j: int|
            if (j / dls < rows && j % dls < width) || (j / dls == rows && j % dls < cols) {
                src[(j / dls) * sls + j % dls]
            } else {
                dst[j]
            },
    )
}

proof fn lemma_line_col(i: int, k: int, d: int)
    requires
        i >= 0,
        0 <= k < d,
    ensures
        (i * d + k) / d == i,
        (i * d + k) % d == k,
{
    vstd::arithmetic::div_mod::lemma_fundamental_div_mod_converse(i * d + k, d, i, k);
}

/// Copies the first `width` bytes of the first `height` lines of a plane into
/// another, line by line, as far as both planes have lines.
fn copy_plane(
    dst: &mut [u8],
    dst_linesize: usize,
    src: &[u8],
    src_linesize: usize,
    width: usize,
    height: usize,
)
    requires
        copy_plane_ok(
            old(dst)@.len() as int,
            dst_linesize as int,
            src@.len() as int,
            src_linesize as int,
            width as int,
            height as int,
        ),
    ensures
        final(dst)@ == plane_copy(
            old(dst)@,
            dst_linesize as int,
            src@,
            src_linesize as int,
            width as int,
            height as int,
        ),
{
    let ghost d0 = dst@;
    let ghost dls = dst_linesize as int;
    let ghost sls = src_linesize as int;
    let ghost dlen = d0.len() as int;
    let ghost slen = src@.len() as int;
    let dn = dst.len();
    let sn = src.len();
    let mut r: usize = 0;
    let mut doff: usize = 0;
    let mut soff: usize = 0;
    assert(dst@ =~= partial_copy(d0, dls, src@, sls, width as int, 0, 0));
    while r < height && doff < dn && soff < sn
        invariant
            dn == dlen,
            sn == slen,
            src@.len() == slen,
            dst@.len() == dlen,
            copy_plane_ok(dlen, dls, slen, sls, width as int, height as int),
            dls == dst_linesize,
            sls == src_linesize,
            r <= height,
            (r * dls < dlen && doff == r * dls) || (r * dls >= dlen && doff == dlen),
            (r * sls < slen && soff == r * sls) || (r * sls >= slen && soff == slen),
            forall|i: int| 0 <= i < r ==> line_copied(i, dlen, dls, slen, sls, height as int),
            dst@ == partial_copy(d0, dls, src@, sls, width as int, r as int, 0),
        decreases height - r,
    {
        assert(line_copied(r as int, dlen, dls, slen, sls, height as int));
        let mut k: usize = 0;
        while k < width
            invariant
                dst@.len() == dlen,
                src@.len() == slen,
                dlen <= usize::MAX,
                slen <= usize::MAX,
                dls == dst_linesize,
                sls == src_linesize,
                doff == r * dls,
                soff == r * sls,
                width <= dls,
                width <= sls,
                doff + width <= dlen,
                soff + width <= slen,
                k <= width,
                dst@ == partial_copy(d0, dls, src@, sls, width as int, r as int, k as int),
            decreases width - k,
        {
            let b = src[soff + k];
            let ghost before = dst@;
            dst[doff + k] = b;
            proof {
                lemma_line_col(r as int, k as int, dls);
                assert forall|j: int| 0 <= j < dlen implies dst@[j] == partial_copy(
                    d0,
                    dls,
                    src@,
                    sls,
                    width as int,
                    r as int,
                    k + 1,
                )[j] by {
                    if j != doff + k {
                        vstd::arithmetic::div_mod::lemma_fundamental_div_mod(j, dls);
                        if j / dls == r as int && j % dls == k as int {
                            assert(j == dls * (r as int) + k);
                            assert(false) by (nonlinear_arith)
                                requires
                                    j == dls * (r as int) + k,
                                    j != doff + k,
                                    doff == r * dls,
                            ;
                        }
                    }
                }
                assert(dst@ =~= partial_copy(d0, dls, src@, sls, width as int, r as int, k + 1));
            }
            k += 1;
        }
        proof {
            assert forall|j: int| 0 <= j < dlen implies partial_copy(
                d0,
                dls,
                src@,
                sls,
                width as int,
                r as int,
                width as int,
            )[j] == partial_copy(d0, dls, src@, sls, width as int, r + 1, 0)[j] by {
                vstd::arithmetic::div_mod::lemma_mod_pos_bound(j, dls);
            }
            assert(partial_copy(d0, dls, src@, sls, width as int, r as int, width as int)
                =~= partial_copy(d0, dls, src@, sls, width as int, r + 1, 0));
            assert((r + 1) * dls == r * dls + dls) by (nonlinear_arith);
            assert((r + 1) * sls == r * sls + sls) by (nonlinear_arith);
        }
        if dn - doff > dst_linesize {
            doff = doff + dst_linesize;
        } else {
            doff = dn;
        }
        if sn - soff > src_linesize {
            soff = soff + src_linesize;
        } else {
            soff = sn;
        }
        r += 1;
    }
    proof {
        assert forall|j: int| 0 <= j < dlen implies dst@[j] == plane_copy(
            d0,
            dls,
            src@,
            sls,
            width as int,
            height as int,
        )[j] by {
            vstd::arithmetic::div_mod::lemma_fundamental_div_mod(j, dls);
            vstd::arithmetic::div_mod::lemma_div_pos_is_pos(j, dls);
            vstd::arithmetic::div_mod::lemma_mod_pos_bound(j, dls);
            let i = j / dls;
            if i >= r {
                vstd::arithmetic::mul::lemma_mul_inequality(r as int, i, dls);
                vstd::arithmetic::mul::lemma_mul_inequality(r as int, i, sls);
                assert(i * dls <= j) by (nonlinear_arith)
                    requires
                        j == dls * i + j % dls,
                        j % dls >= 0,
                ;
                assert(!line_copied(i, dlen, dls, slen, sls, height as int));
            }
        }
        assert(dst@ =~= plane_copy(d0, dls, src@, sls, width as int, height as int));
    }
}

/// Decoded frame information.
#[derive(Debug)]
pub struct Frame {
    /// The kind of frame (audio or video).
    pub kind: MediaKind,
    /// Frame buffer containing the data associated to each plane.
    pub buf: DefaultFrameBuffer,
    /// Timestamp information associated to a frame.
    pub t: TimeInfo,
}

/// The planes `0..n` of a video frame have a chroma definition in the
/// format, and their copy between the frame and the other planes is within
/// bounds.
pub open spec fn planes_copy_ok(
    v: VideoInfo,
    frame_planes: Seq<(Seq<u8>, usize)>,
    other: Seq<Seq<u8>>,
    other_linesizes: Seq<usize>,
    n: int,
    into_frame: bool,
) -> bool {
    forall|i: int|
        0 <= i < n ==> {
            &&& (#[trigger] v.format.pixel_chroma_info@[i]) is Some
            &&& subsample_ok(v.width, v.format.pixel_chroma_info@[i].unwrap().horizontal_subsampling)
            &&& subsample_ok(v.height, v.format.pixel_chroma_info@[i].unwrap().vertical_subsampling)
            &&& if into_frame {
                copy_plane_ok(
                    frame_planes[i].0.len() as int,
                    frame_planes[i].1 as int,
                    other[i].len() as int,
                    other_linesizes[i] as int,
                    ceil_shift(
                        v.width as int,
                        v.format.pixel_chroma_info@[i].unwrap().horizontal_subsampling as nat,
                    ),
                    ceil_shift(
                        v.height as int,
                        v.format.pixel_chroma_info@[i].unwrap().vertical_subsampling as nat,
                    ),
                )
            } else {
                copy_plane_ok(
                    other[i].len() as int,
                    other_linesizes[i] as int,
                    frame_planes[i].0.len() as int,
                    frame_planes[i].1 as int,
                    ceil_shift(
                        v.width as int,
                        v.format.pixel_chroma_info@[i].unwrap().horizontal_subsampling as nat,
                    ),
                    ceil_shift(
                        v.height as int,
                        v.format.pixel_chroma_info@[i].unwrap().vertical_subsampling as nat,
                    ),
                )
            }
        }
}

impl Frame {
    /// Creates a new frame, with zeroed planes for the media it describes,
    /// and the given timestamps or default ones.
    pub fn new_default_frame<T>(kind: T, t: Option<TimeInfo>) -> (r: Self) where
        T: Into<MediaKind> + Clone,

        requires
            <T as IntoSpec<MediaKind>>::obeys_into_spec(),
            frame_layout_ok(kind.into_spec()),
        ensures
            r.kind == kind.into_spec(),
            r.buf.planes_view() == zero_planes(frame_layout(r.kind)),
            t is Some ==> r.t == t.unwrap(),
            t is None ==> {
                &&& r.t.pts is None
                &&& r.t.dts is None
                &&& r.t.duration is None
                &&& r.t.timebase is None
                &&& r.t.user_private is None
            },
    {
        let k = kind.into();
        let buf = DefaultFrameBuffer::new(&k);
        let t = match t {
            Some(t) => t,
            None => TimeInfo::default(),
        };
        Self { kind: k, buf, t }
    }

    /// Copies a plane of a video frame to an output buffer whose lines are
    /// `dst_linesize` bytes apart: all the frame's width and height of
    /// bytes, as far as both have lines.
    pub fn copy_plane_to_buffer(&self, plane_index: usize, dst: &mut [u8], dst_linesize: usize)
        requires
            self.kind is Video,
            plane_index < self.buf.planes_view().len(),
            copy_plane_ok(
                old(dst)@.len() as int,
                dst_linesize as int,
                self.buf.planes_view()[plane_index as int].0.len() as int,
                self.buf.planes_view()[plane_index as int].1 as int,
                self.kind->Video_0.width as int,
                self.kind->Video_0.height as int,
            ),
        ensures
            final(dst)@ == plane_copy(
                old(dst)@,
                dst_linesize as int,
                self.buf.planes_view()[plane_index as int].0,
                self.buf.planes_view()[plane_index as int].1 as int,
                self.kind->Video_0.width as int,
                self.kind->Video_0.height as int,
            ),
    {
        match &self.kind {
            MediaKind::Video(fmt) => {
                let width = fmt.width;
                let height = fmt.height;
                let src = self.buf.plane(plane_index);
                let src_linesize = self.buf.plane_linesize(plane_index);
                copy_plane(dst, dst_linesize, src, src_linesize, width, height);
            },
            MediaKind::Audio(_) => {},
        }
    }

    /// Copies the planes of a video frame to output buffers, each with its
    /// stride: as many planes as there are buffers, strides and frame
    /// planes, each with the dimensions of its chroma definition.
    pub fn copy_frame_to_buffer(&self, dst: &mut Vec<Vec<u8>>, dst_linesizes: &[usize])
        requires
            self.kind is Video,
            planes_copy_ok(
                self.kind->Video_0,
                self.buf.planes_view(),
                old(dst)@.map_values(|v: Vec<u8>| v@),
                dst_linesizes@,
                copied_planes(old(dst)@.len(), dst_linesizes@.len(), self.buf.planes_view().len()),
                false,
            ),
        ensures
            final(dst)@.len() == old(dst)@.len(),
            forall|i: int|
                0 <= i < old(dst)@.len() ==> #[trigger] final(dst)@[i]@ == if i < copied_planes(
                    old(dst)@.len(),
                    dst_linesizes@.len(),
                    self.buf.planes_view().len(),
                ) {
                    plane_copy(
                        old(dst)@[i]@,
                        dst_linesizes@[i] as int,
                        self.buf.planes_view()[i].0,
                        self.buf.planes_view()[i].1 as int,
                        ceil_shift(
                            self.kind->Video_0.width as int,
                            self.kind->Video_0.format.pixel_chroma_info@[i].unwrap().horizontal_subsampling as nat,
                        ),
                        ceil_shift(
                            self.kind->Video_0.height as int,
                            self.kind->Video_0.format.pixel_chroma_info@[i].unwrap().vertical_subsampling as nat,
                        ),
                    )
                } else {
                    old(dst)@[i]@
                },
    {
        match &self.kind {
            MediaKind::Video(fmt) => {
                let width = fmt.width;
                let height = fmt.height;
                let n = copied_planes_exec(dst.len(), dst_linesizes.len(), self.buf.planes.len());
                let ghost d0 = dst@;
                let mut i: usize = 0;
                while i < n
                    invariant
                        i <= n,
                        n == copied_planes(d0.len(), dst_linesizes@.len(), self.buf.planes_view().len()),
                        n <= 5,
                        n <= d0.len(),
                        n <= dst_linesizes@.len(),
                        n <= self.buf.planes_view().len(),
                        self.kind == MediaKind::Video(*fmt),
                        width == fmt.width,
                        height == fmt.height,
                        planes_copy_ok(*fmt, self.buf.planes_view(), d0.map_values(|v: Vec<u8>| v@),
                            dst_linesizes@, n as int, false),
                        dst@.len() == d0.len(),
                        forall|j: int| 0 <= j < d0.len() ==> #[trigger] dst@[j]@ == if j < i {
                            plane_copy(
                                d0[j]@,
                                dst_linesizes@[j] as int,
                                self.buf.planes_view()[j].0,
                                self.buf.planes_view()[j].1 as int,
                                ceil_shift(width as int, fmt.format.pixel_chroma_info@[j].unwrap().horizontal_subsampling as nat),
                                ceil_shift(height as int, fmt.format.pixel_chroma_info@[j].unwrap().vertical_subsampling as nat),
                            )
                        } else {
                            d0[j]@
                        },
                    decreases n - i,
                {
                    assert(fmt.format.pixel_chroma_info@[i as int] is Some);
                    let c = fmt.format.pixel_chroma_info[i].unwrap();
                    let cw = c.width(width);
                    let ch = c.height(height);
                    let src = self.buf.plane(i);
                    let src_linesize = self.buf.plane_linesize(i);
                    let ghost before = dst@;
                    copy_plane_into_vec(&mut dst[i], dst_linesizes[i], src, src_linesize, cw, ch);
                    assert(dst@ == before.update(i as int, dst@[i as int]));
                    i += 1;
                }
            },
            MediaKind::Audio(_) => {},
        }
    }

    /// Copies source planes, each with its stride, into the planes of a
    /// video frame, each with the dimensions of its chroma definition.
    pub fn copy_from_slice(&mut self, src: &[&[u8]], src_linesize: &[usize])
        requires
            old(self).kind is Video,
            src@.len() >= old(self).buf.planes_view().len(),
            src_linesize@.len() >= old(self).buf.planes_view().len(),
            old(self).buf.planes_view().len() <= 5,
            planes_copy_ok(
                old(self).kind->Video_0,
                old(self).buf.planes_view(),
                src@.map_values(|s: &[u8]| s@),
                src_linesize@,
                old(self).buf.planes_view().len() as int,
                true,
            ),
        ensures
            final(self).kind == old(self).kind,
            final(self).t == old(self).t,
            final(self).buf.planes_view().len() == old(self).buf.planes_view().len(),
            forall|i: int|
                0 <= i < old(self).buf.planes_view().len() ==> #[trigger] final(self).buf.planes_view()[i]
                    == (
                    plane_copy(
                        old(self).buf.planes_view()[i].0,
                        old(self).buf.planes_view()[i].1 as int,
                        src@[i]@,
                        src_linesize@[i] as int,
                        ceil_shift(
                            old(self).kind->Video_0.width as int,
                            old(self).kind->Video_0.format.pixel_chroma_info@[i].unwrap().horizontal_subsampling as nat,
                        ),
                        ceil_shift(
                            old(self).kind->Video_0.height as int,
                            old(self).kind->Video_0.format.pixel_chroma_info@[i].unwrap().vertical_subsampling as nat,
                        ),
                    ),
                    old(self).buf.planes_view()[i].1,
                ),
    {
        let n = self.buf.planes.len();
        let ghost p0 = self.buf.planes_view();
        match &self.kind {
            MediaKind::Video(fmt) => {
                let width = fmt.width;
                let height = fmt.height;
                let format = fmt.format.clone();
                let mut i: usize = 0;
                while i < n
                    invariant
                        i <= n,
                        n == p0.len(),
                        n <= 5,
                        src@.len() >= n,
                        src_linesize@.len() >= n,
                        self.kind == old(self).kind,
                        self.t == old(self).t,
                        p0 == old(self).buf.planes_view(),
                        self.kind is Video,
                        width == self.kind->Video_0.width,
                        height == self.kind->Video_0.height,
                        *format == *self.kind->Video_0.format,
                        planes_copy_ok(self.kind->Video_0, p0, src@.map_values(|s: &[u8]| s@),
                            src_linesize@, n as int, true),
                        self.buf.planes_view().len() == n,
                        forall|j: int| 0 <= j < n ==> #[trigger] self.buf.planes_view()[j] == if j < i {
                            (
                                plane_copy(
                                    p0[j].0,
                                    p0[j].1 as int,
                                    src@[j]@,
                                    src_linesize@[j] as int,
                                    ceil_shift(width as int, format.pixel_chroma_info@[j].unwrap().horizontal_subsampling as nat),
                                    ceil_shift(height as int, format.pixel_chroma_info@[j].unwrap().vertical_subsampling as nat),
                                ),
                                p0[j].1,
                            )
                        } else {
                            p0[j]
                        },
                    decreases n - i,
                {
                    assert(format.pixel_chroma_info@[i as int] is Some);
                    let c = format.pixel_chroma_info[i].unwrap();
                    let cw = c.width(width);
                    let ch = c.height(height);
                    let ghost before = self.buf.planes_view();
                    self.buf.copy_into_plane(i, src[i], src_linesize[i], cw, ch);
                    i += 1;
                }
            },
            MediaKind::Audio(_) => {},
        }
    }
}

/// How many planes `copy_frame_to_buffer` copies: as many as there are
/// buffers, strides, frame planes and chroma definitions.
pub open spec fn copied_planes(buffers: nat, strides: nat, planes: nat) -> int {
    vstd::math::min(vstd::math::min(buffers as int, strides as int), vstd::math::min(planes as int, 5))
}

fn copied_planes_exec(buffers: usize, strides: usize, planes: usize) -> (r: usize)
    ensures
        r == copied_planes(buffers as nat, strides as nat, planes as nat),
{
    let a = if buffers < strides {
        buffers
    } else {
        strides
    };
    let b = if planes < 5 {
        planes
    } else {
        5
    };
    if a < b {
        a
    } else {
        b
    }
}

fn copy_plane_into_vec(
    dst: &mut Vec<u8>,
    dst_linesize: usize,
    src: &[u8],
    src_linesize: usize,
    width: usize,
    height: usize,
)
    requires
        copy_plane_ok(
            old(dst)@.len() as int,
            dst_linesize as int,
            src@.len() as int,
            src_linesize as int,
            width as int,
            height as int,
        ),
    ensures
        final(dst)@ == plane_copy(
            old(dst)@,
            dst_linesize as int,
            src@,
            src_linesize as int,
            width as int,
            height as int,
        ),
{
    copy_plane(dst.as_mut_slice(), dst_linesize, src, src_linesize, width, height);
}

/// The text form of a frame type.
pub open spec fn frame_type_text(t: FrameType) -> Seq<char> {
    match t {
        FrameType::I => "I"@,
        FrameType::P => "P"@,
        FrameType::B => "B"@,
        FrameType::SKIP => "Skip"@,
        FrameType::OTHER => "x"@,
    }
}

impl FrameType {
    /// The text form of the frame type.
    pub fn to_string(&self) -> (r: String)
        ensures
            r@ == frame_type_text(*self),
    {
        let s: &str = match self {
            FrameType::I => "I",
            FrameType::P => "P",
            FrameType::B => "B",
            FrameType::SKIP => "Skip",
            FrameType::OTHER => "x",
        };
        String::from_str(s)
    }
}

/// The text form of video information: its dimensions.
pub open spec fn video_info_text(v: VideoInfo) -> Seq<char> {
    decimal(v.width as nat) + "x"@ + decimal(v.height as nat)
}

/// The text form of audio information: its sample rate and number of
/// channels.
pub open spec fn audio_info_text(a: AudioInfo) -> Seq<char> {
    decimal(a.sample_rate as nat) + " Hz, "@ + decimal(a.map@.len()) + " ch"@
}

/// The text form of stream information.
pub open spec fn media_kind_text(k: MediaKind) -> Seq<char> {
    match k {
        MediaKind::Audio(a) => audio_info_text(a),
        MediaKind::Video(v) => video_info_text(v),
    }
}

impl VideoInfo {
    /// The text form of the video information.
    pub fn to_string(&self) -> (r: String)
        ensures
            r@ == video_info_text(*self),
    {
        let mut s = decimal_string(self.width as u64);
        s.append("x");
        let h = decimal_string(self.height as u64);
        s.append(h.as_str());
        s
    }
}

impl AudioInfo {
    /// The text form of the audio information.
    pub fn to_string(&self) -> (r: String)
        ensures
            r@ == audio_info_text(*self),
    {
        let mut s = decimal_string(self.sample_rate as u64);
        s.append(" Hz, ");
        let ch = decimal_string(self.get_channels_number() as u64);
        s.append(ch.as_str());
        s.append(" ch");
        s
    }
}

impl MediaKind {
    /// The text form of the stream information.
    pub fn to_string(&self) -> (r: String)
        ensures
            r@ == media_kind_text(*self),
    {
        match self {
            MediaKind::Audio(a) => a.to_string(),
            MediaKind::Video(v) => v.to_string(),
        }
    }
}

/// Two video descriptions match when their dimensions and pixel formats do.
impl PartialEq for VideoInfo {
    fn eq(&self, info2: &VideoInfo) -> (r: bool) {
        self.width == info2.width && self.height == info2.height && same_format(
            &self.format,
            &info2.format,
        )
    }
}

impl PartialEqSpecImpl for VideoInfo {
    open spec fn obeys_eq_spec() -> bool {
        true
    }

    open spec fn eq_spec(&self, info2: &VideoInfo) -> bool {
        self.width == info2.width && self.height == info2.height && *self.format == *info2.format
    }
}

/// Two audio descriptions match when their sample rates, channel maps and
/// sample formats do.
impl PartialEq for AudioInfo {
    fn eq(&self, info2: &AudioInfo) -> (r: bool) {
        self.sample_rate == info2.sample_rate && self.map == info2.map && *self.format
            == *info2.format
    }
}

impl PartialEqSpecImpl for AudioInfo {
    open spec fn obeys_eq_spec() -> bool {
        true
    }

    open spec fn eq_spec(&self, info2: &AudioInfo) -> bool {
        self.sample_rate == info2.sample_rate && self.map@ == info2.map@ && *self.format
            == *info2.format
    }
}

/// A specialized type for reference-counted `Frame`
pub type ArcFrame = Arc<Frame>;

/// A video picture: its dimensions and pixel format.
pub struct VideoFrame {
    /// Picture width.
    pub width: usize,
    /// Picture height.
    pub height: usize,
    /// Picture pixel format.
    pub format: Box<Formaton>,
}

impl VideoFrame {
    /// The bytes of all the planes of the picture, lines aligned to `align`.
    fn size(&self, align: usize) -> (r: usize)
        requires
            planes_ok(self.format.pixel_chroma_info@, self.width, self.height, align),
        ensures
            r == planes_bytes(self.format.pixel_chroma_info@, self.width, self.height, align),
    {
        pictures_size(&self.format, self.width, self.height, align)
    }
}

/// A piece of audio: its number of samples, sample rate, channels and sample
/// format.
pub struct AudioFrame {
    /// Number of samples.
    pub samples: usize,
    /// Sample rate.
    pub rate: usize,
    /// Sequence of channels.
    pub map: ChannelMap,
    /// Sample format.
    pub format: Box<Soniton>,
}

/// A video picture or a piece of audio.
pub enum FrameKind {
    /// A video picture.
    Video(VideoFrame),
    /// A piece of audio.
    Audio(AudioFrame),
}

/// Total size of the planes of a layout.
pub open spec fn layout_bytes(layout: Seq<(int, int)>) -> int
    decreases layout.len(),
{
    if layout.len() == 0 {
        0
    } else {
        layout_bytes(layout.drop_last()) + layout.last().0
    }
}

proof fn lemma_video_layout_bytes(planes: Seq<Option<Chromaton>>, w: usize, h: usize, a: usize)
    ensures
        layout_bytes(video_layout(planes, w, h, a)) == planes_bytes(planes, w, h, a),
    decreases planes.len(),
{
    if planes.len() > 0 {
        lemma_video_layout_bytes(planes.drop_last(), w, h, a);
        if let Some(c) = planes.last() {
            let rest = video_layout(planes.drop_last(), w, h, a);
            assert(video_layout(planes, w, h, a).drop_last() == rest);
        }
    }
}

proof fn lemma_uniform_layout_bytes(c: int, n: nat)
    ensures
        layout_bytes(Seq::new(n, |i: int| (c, c))) == c * n,
    decreases n,
{
    let l = Seq::new(n, |i: int| (c, c));
    if n > 0 {
        lemma_uniform_layout_bytes(c, (n - 1) as nat);
        assert(l.drop_last() =~= Seq::new((n - 1) as nat, |i: int| (c, c)));
        assert(l.last() == (c, c));
        assert(layout_bytes(l) == layout_bytes(l.drop_last()) + c);
        assert(c * n == c * (n - 1) + c) by (nonlinear_arith)
            requires
                n > 0,
        ;
    } else {
        assert(l.len() == 0);
    }
}

/// The planes of a default frame buffer take exactly the size of the frame:
/// for video what `VideoInfo::size` gives, for audio what `AudioInfo::size`
/// gives.
pub proof fn lemma_layout_fills_frame(kind: MediaKind)
    ensures
        kind is Video ==> layout_bytes(frame_layout(kind)) == planes_bytes(
            kind->Video_0.format.pixel_chroma_info@,
            kind->Video_0.width,
            kind->Video_0.height,
            ALIGNMENT,
        ),
        kind is Audio ==> layout_bytes(frame_layout(kind)) == channel_bytes(
            *kind->Audio_0.format,
            kind->Audio_0.samples,
            ALIGNMENT,
        ) * kind->Audio_0.map@.len(),
{
    if kind is Video {
        let v = kind->Video_0;
        lemma_video_layout_bytes(v.format.pixel_chroma_info@, v.width, v.height, ALIGNMENT);
    } else {
        let a = kind->Audio_0;
        let c = channel_bytes(*a.format, a.samples, ALIGNMENT);
        if a.format.planar {
            lemma_uniform_layout_bytes(c, a.map@.len());
            assert(frame_layout(kind) =~= Seq::new(a.map@.len(), |i: int| (c, c)));
            assert(layout_bytes(frame_layout(kind)) == c * a.map@.len());
        } else {
            let l = seq![(c * a.map@.len(), c * a.map@.len())];
            assert(frame_layout(kind) =~= l);
            assert(l.drop_last() =~= Seq::<(int, int)>::empty());
            assert(layout_bytes(Seq::<(int, int)>::empty()) == 0);
            assert(layout_bytes(l) == c * a.map@.len());
            assert(layout_bytes(frame_layout(kind)) == c * a.map@.len());
        }
    }
}

} // verus!
