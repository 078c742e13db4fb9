use rust_av::data::audiosample::formats as audio_formats;
use rust_av::data::buffer::{AudioBuffer, BufferType};
use rust_av::data::buffer_ref::BufferRef;
use rust_av::data::audiosample::{ChannelMap, ChannelType, Soniton};
use rust_av::data::colorspace::{
    ColorModel, ColorPrimaries, MatrixCoefficients, TransferCharacteristic,
    TrichromaticEncodingSystem, YUVRange, YUVSystem,
};
use rust_av::data::frame::{
    AudioInfo, DefaultFrameBuffer, Frame, FrameBuffer, FrameError, FrameType, MediaKind,
    VideoInfo,
};
use rust_av::data::packet::Packet;
use rust_av::data::pixel::formats as pixel_formats;
use rust_av::data::pixel::{Chromaton, Formaton};
use rust_av::data::timeinfo::TimeInfo;
use rust_av::data::value::Value;
use std::io::{Cursor, Read, Write};
use std::sync::Arc;

#[test]
fn audiosample_fmt() {
    println!("{}", audio_formats::S16().to_string());
    println!("{}", audio_formats::U8().to_string());
    println!("{}", audio_formats::F32().to_string());
}

#[test]
fn soniton_text_values() {
    assert_eq!(
        audio_formats::S16().to_string(),
        "(16 bps, LE planar: false packed: false int)"
    );
    assert_eq!(
        audio_formats::U8().to_string(),
        "(8 bps, LE planar: false packed: false uint)"
    );
    assert_eq!(
        audio_formats::F32().to_string(),
        "(32 bps, LE planar: false packed: false float)"
    );
    // the flag after `planar:` is the packing, the one after `packed:` the layout
    let s = Soniton::new(24, true, true, false, false, true);
    assert_eq!(s.to_string(), "(24 bps, BE planar: true packed: false int)");
}

#[test]
fn pixel_fmt() {
    println!("formaton yuv- {}", pixel_formats::YUV420().to_string());
    println!("formaton pal- {}", pixel_formats::PAL8().to_string());
    println!("formaton rgb565- {}", pixel_formats::RGB565().to_string());
    println!("formaton rgba- {}", pixel_formats::RGBA().to_string());
    println!("formaton rgb48- {}", pixel_formats::RGB48().to_string());
    println!("formaton rgba64- {}", pixel_formats::RGBA64().to_string());
}

#[test]
fn pixel_text_values() {
    assert_eq!(
        pixel_formats::YUV420().to_string(),
        "[Formaton for YCbCr (Limited range) (elem LE size 0):  (0x0, planar(0,1)) (1x1, planar(1,1)) (1x1, planar(2,1))]"
    );
    assert_eq!(
        pixel_formats::RGB565().to_string(),
        "[Formaton for RGB (elem LE size 2):  (0x0, packed(+0,F800, step 2)) (0x0, packed(+0,7E0, step 2)) (0x0, packed(+0,1F, step 2))]"
    );
    let c = Chromaton::new(1, 2, true, 8, 24, 3, 4);
    assert_eq!(c.to_string(), "(1x2, packed(+3,FF000000, step 4))");
}

#[test]
fn colorspace_text_values() {
    assert_eq!(MatrixCoefficients::BT709.to_string(), "ITU BT.709");
    assert_eq!(
        MatrixCoefficients::ChromaticityDerivedNonConstantLuminance.to_string(),
        "Chromaticity Derived (Non ConstantLuminance)"
    );
    assert_eq!(ColorPrimaries::Reserved0.to_string(), "Identity");
    assert_eq!(ColorPrimaries::P3DCI.to_string(), "DCI P3");
    assert_eq!(
        TransferCharacteristic::BT2020Twelve.to_string(),
        "ITU BT.2020 for 12bit systems"
    );
    assert_eq!(YUVRange::Full.to_string(), "Full range");
    assert_eq!(YUVSystem::YCoCg.to_string(), "YCbCg");
    assert_eq!(
        ColorModel::Trichromatic(TrichromaticEncodingSystem::YUV(YUVSystem::YCbCr(
            YUVRange::Limited
        )))
        .to_string(),
        "YCbCr (Limited range)"
    );
    assert_eq!(ColorModel::CMYK.to_string(), "CMYK");
    assert_eq!(ChannelType::LFE2.to_string(), "LFE2");
    assert_eq!(ChannelType::Rhs.to_string(), "Rhs");
}

fn p<'a, T>(v: T)
where
    T: Into<Value<'a>> + std::fmt::Debug,
{
    println!("{:?}", v);
}

#[test]
fn value_str() {
    p("test");
}

#[test]
fn value_conversions() {
    assert!(matches!(Value::from("test"), Value::Str("test")));
    assert!(matches!(Value::from(3i64), Value::I64(3)));
    assert!(matches!(Value::from(3u64), Value::U64(3)));
    assert!(matches!(Value::from(true), Value::Bool(true)));
    assert!(matches!(Value::from((1i64, 2i64)), Value::Pair(1, 2)));
}

#[test]
fn write_packet() {
    let size = 1024;
    let mut buf = Cursor::new(Vec::with_capacity(size));

    let mut pkt = Packet::with_capacity(size);

    for i in 0..size {
        pkt.data.push(i as u8);
    }

    buf.write_all(pkt.data.as_slice()).unwrap();

    let vec = buf.into_inner();

    for (i, elem) in vec.iter().enumerate().take(size) {
        println!("{}", elem);
        assert!(*elem == i as u8);
    }
}

#[test]
fn packet_read_packet() {
    let data: Vec<u8> = (0..128).collect();
    let mut buf = Cursor::new(data.clone());

    let mut pkt = Packet::zeroed(64);
    buf.read_exact(pkt.data.as_mut_slice()).unwrap();
    assert_eq!(pkt.data, &data[..64]);
}

#[test]
fn packet_constructors() {
    let pkt = Packet::zeroed(16);
    assert_eq!(pkt.data, vec![0u8; 16]);
    assert_eq!(pkt.stream_index, -1);
    assert!(pkt.pos.is_none() && !pkt.is_key && !pkt.is_corrupted);
    let pkt = Packet::new();
    assert!(pkt.data.is_empty());
    assert!(pkt.t.pts.is_none() && pkt.t.timebase.is_none());
}

#[test]
fn test_format_cmp() {
    let mut map = ChannelMap::new();
    map.add_channel(ChannelType::C);

    let sn = Arc::new(audio_formats::S16());
    let info1 = AudioInfo::new(42, 48000, map.clone(), sn, None);

    let sn = Arc::new(audio_formats::S16());
    let info2 = AudioInfo::new(4242, 48000, map.clone(), sn, None);

    assert!(info1 == info2);

    let mut map = ChannelMap::new();
    map.add_channel(ChannelType::C);
    let sn = Arc::new(audio_formats::S16());
    let info1 = AudioInfo::new(42, 48000, map.clone(), sn, None);

    let sn = Arc::new(audio_formats::S32());
    let info2 = AudioInfo::new(42, 48000, map.clone(), sn, None);

    assert!(!(info1 == info2));
}

#[test]
fn test_video_format_cmp() {
    let yuv420: Formaton = pixel_formats::YUV420();
    let fm = Arc::new(yuv420);
    let info1 = VideoInfo::new(42, 42, false, FrameType::I, fm);

    let yuv420: Formaton = pixel_formats::YUV420();
    let fm = Arc::new(yuv420);
    let info2 = VideoInfo::new(42, 42, false, FrameType::P, fm);

    assert!(info1 == info2);

    let yuv420: Formaton = pixel_formats::YUV420();
    let fm = Arc::new(yuv420);
    let info1 = VideoInfo::new(42, 42, false, FrameType::I, fm);

    let rgb565: Formaton = pixel_formats::RGB565();
    let fm = Arc::new(rgb565);
    let info2 = VideoInfo::new(42, 42, false, FrameType::I, fm);

    assert!(!(info1 == info2));
}

#[test]
fn video_info_size_and_text() {
    let info = VideoInfo::new(42, 42, false, FrameType::I, Arc::new(pixel_formats::YUV420()));
    assert_eq!(info.bits, 24);
    // luma: 64 * 42, two chroma planes: 32 * 21 each
    assert_eq!(info.size(32), 64 * 42 + 2 * 32 * 21);
    assert_eq!(info.to_string(), "42x42");
    assert_eq!(MediaKind::Video(info).to_string(), "42x42");
    assert_eq!(FrameType::SKIP.to_string(), "Skip");
    assert_eq!(FrameType::OTHER.to_string(), "x");
}

#[test]
fn audio_info_size_and_text() {
    let map = ChannelMap::default_map(2);
    let info = AudioInfo::new(10, 48000, map, Arc::new(audio_formats::S16()), Some(10));
    assert_eq!(info.get_channels_number(), 2);
    // 10 samples of 2 bytes, aligned to 32, for each of 2 channels
    assert_eq!(info.size(32), 64);
    assert_eq!(info.to_string(), "48000 Hz, 2 ch");
}

#[test]
fn default_frame_buffer_video_planes() {
    let info = VideoInfo::new(42, 42, false, FrameType::I, Arc::new(pixel_formats::YUV420()));
    let buf = DefaultFrameBuffer::new(&MediaKind::Video(info));
    assert_eq!(buf.count(), 3);
    assert_eq!(buf.linesize(0), Ok(64));
    assert_eq!(buf.linesize(1), Ok(32));
    assert_eq!(buf.linesize(2), Ok(32));
    assert_eq!(buf.linesize(3), Err(FrameError::InvalidIndex));
    assert_eq!(buf.as_slice_inner(0).unwrap().len(), 64 * 42);
    assert_eq!(buf.as_slice_inner(1).unwrap().len(), 32 * 21);
    assert!(buf.as_slice_inner(2).unwrap().iter().all(|&b| b == 0));
    assert!(buf.as_slice_inner(3).is_err());
}

#[test]
fn default_frame_buffer_audio_planes() {
    let planar = Soniton::new(16, false, false, true, false, true);
    let info = AudioInfo::new(10, 48000, ChannelMap::default_map(2), Arc::new(planar), None);
    let buf = DefaultFrameBuffer::new(&MediaKind::Audio(info));
    assert_eq!(buf.count(), 2);
    assert_eq!(buf.linesize(0), Ok(32));
    assert_eq!(buf.as_slice_inner(1).unwrap().len(), 32);

    let info = AudioInfo::new(
        10,
        48000,
        ChannelMap::default_map(2),
        Arc::new(audio_formats::S16()),
        None,
    );
    let buf = DefaultFrameBuffer::new(&MediaKind::Audio(info));
    assert_eq!(buf.count(), 1);
    assert_eq!(buf.linesize(0), Ok(64));
}

#[test]
fn frame_copy_roundtrip() {
    let info = VideoInfo::new(4, 2, false, FrameType::I, Arc::new(pixel_formats::YUV420()));
    let mut frame = Frame::new_default_frame(info, None);
    assert!(frame.t.pts.is_none());
    let luma: Vec<u8> = (1..=8).collect();
    let chroma_u: Vec<u8> = vec![9, 10];
    let chroma_v: Vec<u8> = vec![11, 12];
    let src: Vec<&[u8]> = vec![&luma, &chroma_u, &chroma_v];
    frame.copy_from_slice(&src, &[4, 2, 2]);
    assert_eq!(&frame.buf.plane(0)[..4], &[1, 2, 3, 4]);
    assert_eq!(&frame.buf.plane(0)[32..36], &[5, 6, 7, 8]);
    assert_eq!(&frame.buf.plane(1)[..2], &[9, 10]);
    assert_eq!(frame.buf.plane(1)[2], 0);

    let mut out = vec![vec![0u8; 8], vec![0u8; 2], vec![0u8; 2]];
    frame.copy_frame_to_buffer(&mut out, &[4, 2, 2]);
    assert_eq!(out[0], luma);
    assert_eq!(out[1], chroma_u);
    assert_eq!(out[2], chroma_v);

    let mut plane = vec![0u8; 8];
    frame.copy_plane_to_buffer(0, &mut plane, 4);
    assert_eq!(plane, luma);
}

#[test]
fn frame_keeps_given_timestamps() {
    let info = AudioInfo::new(4, 8000, ChannelMap::default_map(1), Arc::new(audio_formats::U8()), None);
    let t = TimeInfo {
        pts: Some(7),
        dts: None,
        duration: Some(4),
        timebase: None,
        user_private: None,
    };
    let frame = Frame::new_default_frame(MediaKind::Audio(info), Some(t));
    assert_eq!(frame.t.pts, Some(7));
    assert_eq!(frame.t.duration, Some(4));
    assert!(frame.kind.is_audio() && !frame.kind.is_video());
    assert!(frame.kind.get_audio_info().is_some());
    assert!(frame.kind.get_video_info().is_none());
}

#[test]
fn channel_map_queries() {
    let mut map = ChannelMap::new();
    assert!(map.is_empty());
    map.add_channels(&[ChannelType::L, ChannelType::R, ChannelType::L]);
    assert_eq!(map.len(), 3);
    assert_eq!(map.get_channel(1), ChannelType::R);
    assert_eq!(map.find_channel_id(ChannelType::L), Some(0));
    assert_eq!(map.find_channel_id(ChannelType::C), None);
    assert!(ChannelType::L.is_left() && !ChannelType::L.is_right());
    assert!(ChannelType::C.is_center());
    let other = ChannelMap::default_map(2);
    assert!(other == other.clone());
    assert!(!(other == map));
}

#[test]
fn colorspace_codes_roundtrip() {
    for code in 0..20u32 {
        if let Some(m) = MatrixCoefficients::from_u32(code) {
            assert_eq!(m.to_u32(), code);
        }
        if let Some(p) = ColorPrimaries::from_u32(code) {
            assert_eq!(p.to_u32(), code);
            assert_eq!(ColorPrimaries::from_u32(p.to_u32()), Some(p));
        }
        if let Some(t) = TransferCharacteristic::from_u32(code) {
            assert_eq!(TransferCharacteristic::from_u32(t.to_u32()), Some(t));
        }
    }
    assert_eq!(
        MatrixCoefficients::from_u32(MatrixCoefficients::ICtCp.to_u32()),
        Some(MatrixCoefficients::ICtCp)
    );
    assert_eq!(MatrixCoefficients::from_u32(15), None);
}

#[test]
fn frame_planes_fill_frame_size() {
    for fmt in [pixel_formats::YUV420(), pixel_formats::YUV444(), pixel_formats::RGB24()] {
        let info = VideoInfo::new(37, 19, false, FrameType::P, Arc::new(fmt));
        let total = info.size(32);
        let buf = DefaultFrameBuffer::new(&MediaKind::Video(info));
        let sum: usize = (0..buf.count()).map(|i| buf.as_slice_inner(i).unwrap().len()).sum();
        assert_eq!(sum, total);
    }
}

#[test]
fn pixel_planes_and_iter() {
    let yuv = pixel_formats::YUV420();
    assert_eq!(yuv.planes(), 3);
    assert_eq!(yuv.iter().filter(|c| c.is_some()).count(), 3);
    assert_eq!(yuv.pixel_bit_depths_sum(), 24);
    assert_eq!(yuv.chromaton(1), Some(Chromaton::yuv8(1, 1, 1)));
    assert_eq!(yuv.chromaton(4), None);
}

#[test]
fn buffer_ref_shares_value() {
    let a = BufferRef::new(vec![42u8; 16]);
    assert_eq!(a.get_num_refs(), 1);
    let b = a.clone();
    assert_eq!(a.get_num_refs(), 2);
    assert_eq!(b[4], 42);
    assert_eq!(a.as_ref().len(), 16);
    drop(b);
    assert_eq!(a.get_num_refs(), 1);
    let d: BufferRef<Vec<u8>> = BufferRef::default();
    assert!(d.is_empty());
}

#[test]
fn audio_buffer_getters() {
    let info = AudioInfo::new(4, 8000, ChannelMap::default_map(1), Arc::new(audio_formats::U8()), None);
    let mut ab = AudioBuffer::new_from_buf(info, BufferRef::new(vec![1u8, 2, 3, 4]), ChannelMap::default_map(1));
    assert_eq!(ab.get_length(), 4);
    assert_eq!(ab.get_data(), &vec![1, 2, 3, 4]);
    assert_eq!(ab.get_offset(0), 0);
    assert_eq!(ab.get_stride(), 0);
    assert_eq!(ab.get_step(), 0);
    ab.truncate(10);
    assert_eq!(ab.get_length(), 4);
    ab.truncate(2);
    assert_eq!(ab.get_length(), 2);
    let copy = ab.copy_buffer();
    assert_eq!(copy.get_data(), &vec![1, 2, 3, 4]);
    assert_eq!(copy.get_length(), 2);
    let bt = BufferType::AudioU8(ab);
    assert_eq!(bt.get_audio_length(), 2);
    assert_eq!(bt.get_offset(3), 0);
    assert!(bt.get_abuf_u8().is_some());
    assert!(bt.get_abuf_i16().is_none());
    assert!(bt.get_video_info().is_none());
    assert!(bt.get_audio_info().is_some());
    assert!(bt.get_chmap().is_some());
    assert!(BufferType::NoData.get_chmap().is_none());
    assert_eq!(BufferType::NoData.get_audio_stride(), 0);
}

#[test]
fn media_kind_info_is_a_copy() {
    let info = VideoInfo::new(64, 48, true, FrameType::B, Arc::new(pixel_formats::YUV420()));
    let kind = MediaKind::Video(info.clone());
    let got = kind.get_video_info().unwrap();
    assert_eq!(got.get_width(), 64);
    assert_eq!(got.get_height(), 48);
    assert!(got.is_flipped());
    assert_eq!(*got.get_frame_type(), FrameType::B);
    assert!(got == info);

    let ainfo = AudioInfo::new(16, 44100, ChannelMap::default_map(2), Arc::new(audio_formats::S16()), Some(4));
    let kind = MediaKind::Audio(ainfo);
    let got = kind.get_audio_info().unwrap();
    assert_eq!(got.get_samples(), 16);
    assert_eq!(got.get_sample_rate(), 44100);
    assert_eq!(got.get_channels_number(), 2);
    assert_eq!(got.get_block_len(), Some(4));
}

#[test]
fn audio_buffer_handles_share_data() {
    let info = AudioInfo::new(3, 8000, ChannelMap::default_map(1), Arc::new(audio_formats::U8()), None);
    let ab = AudioBuffer::new_from_buf(info, BufferRef::new(vec![9u8, 8, 7]), ChannelMap::default_map(1));
    let data_ref = ab.get_data_ref();
    assert_eq!(data_ref.get_num_refs(), 2);
    let bt = BufferType::AudioU8(ab);
    let again = bt.get_abuf_u8().unwrap();
    assert_eq!(again.get_data(), &vec![9, 8, 7]);
    assert_eq!(again.get_length(), 3);
    assert_eq!(again.get_chmap().len(), 1);
    assert_eq!(data_ref.get_num_refs(), 3);
    assert_eq!(bt.get_audio_info().unwrap().get_samples(), 3);
}

#[test]
fn buffer_ref_as_mut_only_when_unique() {
    let mut a = BufferRef::new(vec![1u8, 2, 3]);
    a.as_mut().unwrap()[0] = 10;
    assert_eq!(a.as_ref(), &vec![10, 2, 3]);
    let b = a.clone();
    assert!(a.as_mut().is_none());
    drop(b);
    assert!(a.as_mut().is_some());
}

#[test]
fn audio_buffer_data_mut() {
    let info = AudioInfo::new(3, 8000, ChannelMap::default_map(1), Arc::new(audio_formats::U8()), None);
    let mut ab = AudioBuffer::new_from_buf(info, BufferRef::new(vec![9u8, 8, 7]), ChannelMap::default_map(1));
    ab.get_data_mut().unwrap()[1] = 0;
    assert_eq!(ab.get_data(), &vec![9, 0, 7]);
    let shared = ab.get_data_ref();
    assert!(ab.get_data_mut().is_none());
    assert_eq!(shared.as_ref(), &vec![9, 0, 7]);
}

#[test]
fn chromaton_linesize_is_minimal_stride() {
    assert_eq!(Chromaton::yuvhb(0, 0, 4, 0).linesize(3, 1), 2);
    assert_eq!(Chromaton::yuvhb(0, 0, 16, 0).linesize(1, 1), 2);
    assert_eq!(Chromaton::yuvhb(0, 0, 10, 0).linesize(4, 1), 5);
    assert_eq!(Chromaton::yuv8(1, 1, 1).linesize(5, 4), 4);
    assert_eq!(Chromaton::yuvhb(1, 0, 10, 1).linesize(7, 8), 8);
}

#[test]
fn ten_bit_formats_have_ten_bit_planes() {
    for fmt in [
        pixel_formats::YUV444_10(),
        pixel_formats::YUV422_10(),
        pixel_formats::YUV420_10(),
        pixel_formats::YUV411_10(),
        pixel_formats::YUV410_10(),
    ] {
        assert_eq!(fmt.pixel_bit_depths_sum(), 30);
        assert_eq!(fmt.chromaton(1).unwrap().bit_depth, 10);
        assert_eq!(fmt.chromaton(1).unwrap().plane_offset, 1);
        assert_eq!(fmt.chromaton(2).unwrap().plane_offset, 2);
    }
    assert_eq!(pixel_formats::YUV420().pixel_bit_depths_sum(), 24);
}

#[test]
fn channel_type_texts_are_distinct() {
    type T = ChannelType;
    let all = [
        T::C, T::L, T::R, T::Cs, T::Ls, T::Rs, T::Lss, T::Rss, T::LFE, T::Lc, T::Rc, T::Lh,
        T::Rh, T::Ch, T::LFE2, T::Lw, T::Rw, T::Ov, T::Lhs, T::Rhs, T::Chs, T::Ll, T::Rl, T::Cl,
        T::Lt, T::Rt, T::Lo, T::Ro,
    ];
    let texts: Vec<String> = all.iter().map(|c| c.to_string()).collect();
    assert_eq!(texts[8], "LFE");
    assert_eq!(texts[14], "LFE2");
    for i in 0..all.len() {
        for j in 0..all.len() {
            assert_eq!(texts[i] == texts[j], i == j);
        }
    }
}
