//! Decoded video and audio buffers.
use vstd::prelude::*;
use crate::data::audiosample::ChannelMap;
use crate::data::buffer_ref::BufferRef;
use crate::data::frame::{same_audio_info, AudioInfo, VideoInfo};

verus! {

/// Decoded video frame.
///
/// Frames are stored in native type (8/16/32-bit elements) inside
/// a single buffer.
/// In case of image with several components those components are stored
/// sequentially and can be accessed in the buffer starting at
/// corresponding component offset.
#[derive(Clone)]
pub struct VideoBuffer<T> {
    info: VideoInfo,
    data: BufferRef<Vec<T>>,
    offs: Vec<usize>,
    strides: Vec<usize>,
}

/// The entry `idx` of `s`, or 0 beyond its end.
pub open spec fn entry_or_zero(s: Seq<usize>, idx: usize) -> usize {
    if idx < s.len() {
        s[idx as int]
    } else {
        0
    }
}

impl<T: Clone> VideoBuffer<T> {
    /// The component offsets.
    pub closed spec fn offsets(&self) -> Seq<usize> {
        self.offs@
    }

    /// The component strides.
    pub closed spec fn stride_list(&self) -> Seq<usize> {
        self.strides@
    }

    /// The picture information.
    pub closed spec fn info_spec(&self) -> VideoInfo {
        self.info
    }

    /// The data.
    pub closed spec fn data_spec(&self) -> Seq<T> {
        self.data.value()@
    }

    /// Returns the component offset (0 for all unavailable offsets).
    pub fn get_offset(&self, idx: usize) -> (r: usize)
        ensures
            r == entry_or_zero(self.offsets(), idx),
    {
        if idx >= self.offs.len() {
            0
        } else {
            self.offs[idx]
        }
    }

    /// Returns picture info.
    pub fn get_info(&self) -> (r: VideoInfo)
        ensures
            r == self.info_spec(),
    {
        self.info.clone()
    }

    /// Returns an immutable reference to the data.
    pub fn get_data(&self) -> (r: &Vec<T>)
        ensures
            r@ == self.data_spec(),
    {
        self.data.as_ref()
    }

    /// Returns a mutable reference to the data, when no other buffer shares
    /// it.
    pub fn get_data_mut(&mut self) -> (r: Option<&mut Vec<T>>)
        ensures
            r matches Some(m) ==> m@ == old(self).data_spec() && final(self).data_spec()
                == final(m)@,
            r is None ==> final(self).data_spec() == old(self).data_spec(),
            final(self).info_spec() == old(self).info_spec(),
            final(self).offsets() == old(self).offsets(),
            final(self).stride_list() == old(self).stride_list(),
    {
        self.data.as_mut()
    }

    /// Returns the number of components in picture format.
    pub fn get_num_components(&self) -> (r: usize)
        ensures
            r == self.offsets().len(),
    {
        self.offs.len()
    }

    /// Creates a copy of current `VideoBuffer`, with data of its own.
    pub fn copy_buffer(&mut self) -> (r: Self)
        ensures
            r.info_spec() == old(self).info_spec(),
            r.offsets() == old(self).offsets(),
            r.stride_list() == old(self).stride_list(),
            r.data_spec().len() == old(self).data_spec().len(),
            forall|i: int|
                0 <= i < r.data_spec().len() ==> cloned::<T>(
                    old(self).data_spec()[i],
                    #[trigger] r.data_spec()[i],
                ),
            *final(self) == *old(self),
    {
        let data: Vec<T> = self.data.as_ref().clone();
        let offs: Vec<usize> = copy_usizes(&self.offs);
        let strides: Vec<usize> = copy_usizes(&self.strides);
        VideoBuffer { info: self.info.clone(), data: BufferRef::new(data), offs, strides }
    }

    /// Returns stride (distance between subsequent lines)
    /// for the requested component.
    pub fn get_stride(&self, idx: usize) -> (r: usize)
        ensures
            r == entry_or_zero(self.stride_list(), idx),
    {
        if idx >= self.strides.len() {
            return 0;
        }
        self.strides[idx]
    }

    /// Converts current instance into buffer reference.
    pub fn into_ref(self) -> (r: BufferRef<Self>)
        ensures
            r.value() == self,
    {
        BufferRef::new(self)
    }
}

/// A copy of a list of offsets.
fn copy_usizes(v: &Vec<usize>) -> (r: Vec<usize>)
    ensures
        r@ == v@,
{
    let mut out: Vec<usize> = Vec::with_capacity(v.len());
    let mut i: usize = 0;
    while i < v.len()
        invariant
            i <= v@.len(),
            out@ == v@.take(i as int),
        decreases v@.len() - i,
    {
        out.push(v[i]);
        i += 1;
        assert(out@ =~= v@.take(i as int));
    }
    assert(v@.take(v@.len() as int) =~= v@);
    out
}

/// A specialised type for reference-counted `VideoBuffer`.
pub type VideoBufferRef<T> = BufferRef<VideoBuffer<T>>;

/// Decoded audio frame.
///
/// Frames are stored in native type (8/16/32-bit elements) inside
/// a single buffer.
/// In case of planar audio samples for each channel are stored sequentially and
/// can be accessed in the buffer starting at corresponding channel offset.
pub struct AudioBuffer<T> {
    info: AudioInfo,
    data: BufferRef<Vec<T>>,
    offs: Vec<usize>,
    stride: usize,
    step: usize,
    chmap: ChannelMap,
    len: usize,
}

impl<T: Clone> AudioBuffer<T> {
    /// The channel offsets.
    pub closed spec fn offsets(&self) -> Seq<usize> {
        self.offs@
    }

    /// The distance between the starts of two channels.
    pub closed spec fn stride_spec(&self) -> usize {
        self.stride
    }

    /// The distance between two samples of a channel.
    pub closed spec fn step_spec(&self) -> usize {
        self.step
    }

    /// The length in samples.
    pub closed spec fn length(&self) -> usize {
        self.len
    }

    /// The channel map.
    pub closed spec fn chmap_spec(&self) -> ChannelMap {
        self.chmap
    }

    /// The audio information.
    pub closed spec fn info_spec(&self) -> AudioInfo {
        self.info
    }

    /// The data.
    pub closed spec fn data_spec(&self) -> Seq<T> {
        self.data.value()@
    }

    /// Returns the start position of requested channel data.
    pub fn get_offset(&self, idx: usize) -> (r: usize)
        ensures
            r == entry_or_zero(self.offsets(), idx),
    {
        if idx >= self.offs.len() {
            0
        } else {
            self.offs[idx]
        }
    }

    /// Returns the distance between the start of one channel and the next one.
    pub fn get_stride(&self) -> (r: usize)
        ensures
            r == self.stride_spec(),
    {
        self.stride
    }

    /// Returns the distance between the samples in one channel.
    pub fn get_step(&self) -> (r: usize)
        ensures
            r == self.step_spec(),
    {
        self.step
    }

    /// Returns audio format information.
    pub fn get_info(&self) -> (r: AudioInfo)
        ensures
            same_audio_info(r, self.info_spec()),
    {
        self.info.clone()
    }

    /// Returns channel map.
    pub fn get_chmap(&self) -> (r: &ChannelMap)
        ensures
            *r == self.chmap_spec(),
    {
        &self.chmap
    }

    /// Returns an immutable reference to the data.
    pub fn get_data(&self) -> (r: &Vec<T>)
        ensures
            r@ == self.data_spec(),
    {
        self.data.as_ref()
    }

    /// Returns a mutable reference to the data, when no other buffer shares
    /// it.
    pub fn get_data_mut(&mut self) -> (r: Option<&mut Vec<T>>)
        ensures
            r matches Some(m) ==> m@ == old(self).data_spec() && final(self).data_spec()
                == final(m)@,
            r is None ==> final(self).data_spec() == old(self).data_spec(),
            final(self).info_spec() == old(self).info_spec(),
            final(self).chmap_spec() == old(self).chmap_spec(),
            final(self).offsets() == old(self).offsets(),
            final(self).length() == old(self).length(),
            final(self).stride_spec() == old(self).stride_spec(),
            final(self).step_spec() == old(self).step_spec(),
    {
        self.data.as_mut()
    }

    /// Returns reference to the data.
    pub fn get_data_ref(&self) -> (r: BufferRef<Vec<T>>)
        ensures
            r.value()@ == self.data_spec(),
    {
        self.data.clone()
    }

    /// Clones current `AudioBuffer` into a new one, with data of its own.
    pub fn copy_buffer(&mut self) -> (r: Self)
        ensures
            same_audio_info(r.info_spec(), old(self).info_spec()),
            r.chmap_spec()@ == old(self).chmap_spec()@,
            r.offsets() == old(self).offsets(),
            r.length() == old(self).length(),
            r.stride_spec() == old(self).stride_spec(),
            r.step_spec() == old(self).step_spec(),
            r.data_spec().len() == old(self).data_spec().len(),
            forall|i: int|
                0 <= i < r.data_spec().len() ==> cloned::<T>(
                    old(self).data_spec()[i],
                    #[trigger] r.data_spec()[i],
                ),
            *final(self) == *old(self),
    {
        let data: Vec<T> = self.data.as_ref().clone();
        let offs: Vec<usize> = copy_usizes(&self.offs);
        AudioBuffer {
            info: self.info.clone(),
            data: BufferRef::new(data),
            offs,
            chmap: self.get_chmap().clone(),
            len: self.len,
            stride: self.stride,
            step: self.step,
        }
    }

    /// Return the length of frame in samples.
    pub fn get_length(&self) -> (r: usize)
        ensures
            r == self.length(),
    {
        self.len
    }

    /// Truncates buffer length if possible.
    ///
    /// In case when new length is larger than old length nothing is done.
    pub fn truncate(&mut self, new_len: usize)
        ensures
            final(self).length() == if new_len < old(self).length() {
                new_len
            } else {
                old(self).length()
            },
            final(self).offsets() == old(self).offsets(),
            final(self).data_spec() == old(self).data_spec(),
    {
        if new_len < self.len {
            self.len = new_len;
        }
    }
}

/// `a` and `b` are the same audio buffer: the same information, channels,
/// layout and data.
pub open spec fn same_audio_buffer<T: Clone>(a: AudioBuffer<T>, b: AudioBuffer<T>) -> bool {
    &&& same_audio_info(a.info_spec(), b.info_spec())
    &&& a.chmap_spec()@ == b.chmap_spec()@
    &&& a.offsets() == b.offsets()
    &&& a.length() == b.length()
    &&& a.stride_spec() == b.stride_spec()
    &&& a.step_spec() == b.step_spec()
    &&& a.data_spec() == b.data_spec()
}

impl<T: Clone> Clone for AudioBuffer<T> {
    /// Another handle on the same audio: the data is shared.
    fn clone(&self) -> (r: Self)
        ensures
            same_audio_buffer(r, *self),
    {
        AudioBuffer {
            info: self.info.clone(),
            data: self.data.clone(),
            offs: copy_usizes(&self.offs),
            stride: self.stride,
            step: self.step,
            chmap: self.chmap.clone(),
            len: self.len,
        }
    }
}

impl AudioBuffer<u8> {
    /// Constructs a new `AudioBuffer` instance over the given data, as long
    /// as the data, with no channel offsets, stride or step.
    pub fn new_from_buf(info: AudioInfo, data: BufferRef<Vec<u8>>, chmap: ChannelMap) -> (r: Self)
        ensures
            r.length() == data.value()@.len(),
            r.data_spec() == data.value()@,
            r.chmap_spec() == chmap,
            r.offsets().len() == 0,
            r.stride_spec() == 0,
            r.step_spec() == 0,
    {
        let len = data.as_ref().len();
        AudioBuffer { info, data, chmap, offs: Vec::new(), len, stride: 0, step: 0 }
    }
}

/// A list of possible decoded frame types.
#[derive(Clone)]
pub enum BufferType {
    /// 8-bit video buffer.
    Video(VideoBufferRef<u8>),
    /// 16-bit video buffer
    /// (i.e. every component or packed pixel fits into 16 bits).
    Video16(VideoBufferRef<u16>),
    /// 32-bit video buffer
    /// (i.e. every component or packed pixel fits into 32 bits).
    Video32(VideoBufferRef<u32>),
    /// Packed video buffer.
    VideoPacked(VideoBufferRef<u8>),
    /// Audio buffer with 8-bit unsigned integer audio.
    AudioU8(AudioBuffer<u8>),
    /// Audio buffer with 16-bit signed integer audio.
    AudioI16(AudioBuffer<i16>),
    /// Audio buffer with 32-bit signed integer audio.
    AudioI32(AudioBuffer<i32>),
    /// Packed audio buffer.
    AudioPacked(AudioBuffer<u8>),
    /// Buffer with generic data (e.g. subtitles).
    Data(BufferRef<Vec<u8>>),
    /// No data present.
    NoData,
}

impl BufferType {
    /// Returns the offset to the requested component or channel.
    pub fn get_offset(&self, idx: usize) -> (r: usize)
        ensures
            r == match self {
                BufferType::Video(vb) => entry_or_zero(vb.value().offsets(), idx),
                BufferType::Video16(vb) => entry_or_zero(vb.value().offsets(), idx),
                BufferType::Video32(vb) => entry_or_zero(vb.value().offsets(), idx),
                BufferType::VideoPacked(vb) => entry_or_zero(vb.value().offsets(), idx),
                BufferType::AudioU8(ab) => entry_or_zero(ab.offsets(), idx),
                BufferType::AudioI16(ab) => entry_or_zero(ab.offsets(), idx),
                BufferType::AudioI32(ab) => entry_or_zero(ab.offsets(), idx),
                BufferType::AudioPacked(ab) => entry_or_zero(ab.offsets(), idx),
                _ => 0,
            },
    {
        match self {
            BufferType::Video(vb) => vb.as_ref().get_offset(idx),
            BufferType::Video16(vb) => vb.as_ref().get_offset(idx),
            BufferType::Video32(vb) => vb.as_ref().get_offset(idx),
            BufferType::VideoPacked(vb) => vb.as_ref().get_offset(idx),
            BufferType::AudioU8(ab) => ab.get_offset(idx),
            BufferType::AudioI16(ab) => ab.get_offset(idx),
            BufferType::AudioI32(ab) => ab.get_offset(idx),
            BufferType::AudioPacked(ab) => ab.get_offset(idx),
            _ => 0,
        }
    }

    /// Returns information for video frames.
    pub fn get_video_info(&self) -> (r: Option<VideoInfo>)
        ensures
            match self {
                BufferType::Video(vb) => r == Some(vb.value().info_spec()),
                BufferType::Video16(vb) => r == Some(vb.value().info_spec()),
                BufferType::Video32(vb) => r == Some(vb.value().info_spec()),
                BufferType::VideoPacked(vb) => r == Some(vb.value().info_spec()),
                _ => r is None,
            },
    {
        match self {
            BufferType::Video(vb) => Some(vb.as_ref().get_info()),
            BufferType::Video16(vb) => Some(vb.as_ref().get_info()),
            BufferType::Video32(vb) => Some(vb.as_ref().get_info()),
            BufferType::VideoPacked(vb) => Some(vb.as_ref().get_info()),
            _ => None,
        }
    }

    /// Returns reference to 8-bit (or packed) video buffer.
    pub fn get_vbuf(&self) -> (r: Option<VideoBufferRef<u8>>)
        ensures
            match self {
                BufferType::Video(vb) => r == Some(*vb),
                BufferType::VideoPacked(vb) => r == Some(*vb),
                _ => r is None,
            },
    {
        match self {
            BufferType::Video(vb) => Some(vb.clone()),
            BufferType::VideoPacked(vb) => Some(vb.clone()),
            _ => None,
        }
    }

    /// Returns reference to 16-bit video buffer.
    pub fn get_vbuf16(&self) -> (r: Option<VideoBufferRef<u16>>)
        ensures
            match self {
                BufferType::Video16(vb) => r == Some(*vb),
                _ => r is None,
            },
    {
        match self {
            BufferType::Video16(vb) => Some(vb.clone()),
            _ => None,
        }
    }

    /// Returns reference to 32-bit video buffer.
    pub fn get_vbuf32(&self) -> (r: Option<VideoBufferRef<u32>>)
        ensures
            match self {
                BufferType::Video32(vb) => r == Some(*vb),
                _ => r is None,
            },
    {
        match self {
            BufferType::Video32(vb) => Some(vb.clone()),
            _ => None,
        }
    }

    /// Returns information for audio frames.
    pub fn get_audio_info(&self) -> (r: Option<AudioInfo>)
        ensures
            match self {
                BufferType::AudioU8(ab) => r is Some && same_audio_info(r->Some_0, ab.info_spec()),
                BufferType::AudioI16(ab) => r is Some && same_audio_info(r->Some_0, ab.info_spec()),
                BufferType::AudioI32(ab) => r is Some && same_audio_info(r->Some_0, ab.info_spec()),
                BufferType::AudioPacked(ab) => r is Some && same_audio_info(r->Some_0, ab.info_spec()),
                _ => r is None,
            },
    {
        match self {
            BufferType::AudioU8(ab) => Some(ab.get_info()),
            BufferType::AudioI16(ab) => Some(ab.get_info()),
            BufferType::AudioI32(ab) => Some(ab.get_info()),
            BufferType::AudioPacked(ab) => Some(ab.get_info()),
            _ => None,
        }
    }

    /// Returns audio channel map.
    pub fn get_chmap(&self) -> (r: Option<&ChannelMap>)
        ensures
            match self {
                BufferType::AudioU8(ab) => r == Some(&ab.chmap_spec()),
                BufferType::AudioI16(ab) => r == Some(&ab.chmap_spec()),
                BufferType::AudioI32(ab) => r == Some(&ab.chmap_spec()),
                BufferType::AudioPacked(ab) => r == Some(&ab.chmap_spec()),
                _ => r is None,
            },
    {
        match self {
            BufferType::AudioU8(ab) => Some(ab.get_chmap()),
            BufferType::AudioI16(ab) => Some(ab.get_chmap()),
            BufferType::AudioI32(ab) => Some(ab.get_chmap()),
            BufferType::AudioPacked(ab) => Some(ab.get_chmap()),
            _ => None,
        }
    }

    /// Returns audio frame duration in samples.
    pub fn get_audio_length(&self) -> (r: usize)
        ensures
            r == match self {
                BufferType::AudioU8(ab) => ab.length(),
                BufferType::AudioI16(ab) => ab.length(),
                BufferType::AudioI32(ab) => ab.length(),
                BufferType::AudioPacked(ab) => ab.length(),
                _ => 0,
            },
    {
        match self {
            BufferType::AudioU8(ab) => ab.get_length(),
            BufferType::AudioI16(ab) => ab.get_length(),
            BufferType::AudioI32(ab) => ab.get_length(),
            BufferType::AudioPacked(ab) => ab.get_length(),
            _ => 0,
        }
    }

    /// Returns the distance between starts of two channels.
    pub fn get_audio_stride(&self) -> (r: usize)
        ensures
            r == match self {
                BufferType::AudioU8(ab) => ab.stride_spec(),
                BufferType::AudioI16(ab) => ab.stride_spec(),
                BufferType::AudioI32(ab) => ab.stride_spec(),
                BufferType::AudioPacked(ab) => ab.stride_spec(),
                _ => 0,
            },
    {
        match self {
            BufferType::AudioU8(ab) => ab.get_stride(),
            BufferType::AudioI16(ab) => ab.get_stride(),
            BufferType::AudioI32(ab) => ab.get_stride(),
            BufferType::AudioPacked(ab) => ab.get_stride(),
            _ => 0,
        }
    }

    /// Returns the distance between two samples in one channel.
    pub fn get_audio_step(&self) -> (r: usize)
        ensures
            r == match self {
                BufferType::AudioU8(ab) => ab.step_spec(),
                BufferType::AudioI16(ab) => ab.step_spec(),
                BufferType::AudioI32(ab) => ab.step_spec(),
                BufferType::AudioPacked(ab) => ab.step_spec(),
                _ => 0,
            },
    {
        match self {
            BufferType::AudioU8(ab) => ab.get_step(),
            BufferType::AudioI16(ab) => ab.get_step(),
            BufferType::AudioI32(ab) => ab.get_step(),
            BufferType::AudioPacked(ab) => ab.get_step(),
            _ => 0,
        }
    }

    /// Returns reference to 8-bit (or packed) audio buffer.
    pub fn get_abuf_u8(&self) -> (r: Option<AudioBuffer<u8>>)
        ensures
            match self {
                BufferType::AudioU8(ab) => r is Some && same_audio_buffer(r->Some_0, *ab),
                BufferType::AudioPacked(ab) => r is Some && same_audio_buffer(r->Some_0, *ab),
                _ => r is None,
            },
    {
        match self {
            BufferType::AudioU8(ab) => Some(ab.clone()),
            BufferType::AudioPacked(ab) => Some(ab.clone()),
            _ => None,
        }
    }

    /// Returns reference to 16-bit audio buffer.
    pub fn get_abuf_i16(&self) -> (r: Option<AudioBuffer<i16>>)
        ensures
            match self {
                BufferType::AudioI16(ab) => r is Some && same_audio_buffer(r->Some_0, *ab),
                _ => r is None,
            },
    {
        match self {
            BufferType::AudioI16(ab) => Some(ab.clone()),
            _ => None,
        }
    }

    /// Returns reference to 32-bit integer audio buffer.
    pub fn get_abuf_i32(&self) -> (r: Option<AudioBuffer<i32>>)
        ensures
            match self {
                BufferType::AudioI32(ab) => r is Some && same_audio_buffer(r->Some_0, *ab),
                _ => r is None,
            },
    {
        match self {
            BufferType::AudioI32(ab) => Some(ab.clone()),
            _ => None,
        }
    }
}

} // verus!
