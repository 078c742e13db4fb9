use rust_av::data::packet::Packet;
use rust_av::format::buffer::accreader::{ReadPlan, SeekFrom, SeekStep};
use rust_av::format::buffer::{AccReader, Buffered};
use rust_av::format::common::GlobalInfo;
use rust_av::format::demuxer::{
    best_candidate, headers_recovery, Context, Demuxer, Descr, Descriptor, Event, Probe,
    Recovery, Score, PROBE_DATA,
};
use rust_av::format::error::Error;
use rust_av::format::muxer::{find_by_name, str_eq, Descr as MuxDescr, Writer};
use std::io;
use std::io::{Cursor, Read, Seek, Write};

fn to_std(pos: SeekFrom) -> io::SeekFrom {
    match pos {
        SeekFrom::Start(n) => io::SeekFrom::Start(n),
        SeekFrom::End(n) => io::SeekFrom::End(n),
        SeekFrom::Current(n) => io::SeekFrom::Current(n),
    }
}

fn from_std(pos: io::SeekFrom) -> SeekFrom {
    match pos {
        io::SeekFrom::Start(n) => SeekFrom::Start(n),
        io::SeekFrom::End(n) => SeekFrom::End(n),
        io::SeekFrom::Current(n) => SeekFrom::Current(n),
    }
}

fn fill_buf<R: Read + Seek>(acc: &mut AccReader<R>) -> io::Result<()> {
    if let Some(space) = acc.prepare_fill() {
        let mut tmp = vec![0u8; space];
        let n = acc.get_mut().read(&mut tmp)?;
        acc.commit_fill(&tmp[..n]);
    }
    Ok(())
}

fn seek<R: Read + Seek>(acc: &mut AccReader<R>, pos: io::SeekFrom) -> io::Result<u64> {
    match acc.seek_buffered(from_std(pos)) {
        SeekStep::Done(n) => Ok(n),
        SeekStep::Inner(p) => {
            let sz = acc.get_mut().seek(to_std(p))?;
            acc.after_inner_seek(sz);
            fill_buf(acc)?;
            Ok(sz)
        }
    }
}

fn read<R: Read + Seek>(acc: &mut AccReader<R>, buf: &mut [u8]) -> io::Result<usize> {
    match acc.read_plan(buf.len()) {
        ReadPlan::Buffered => {
            let got = acc.take(buf.len());
            buf[..got.len()].copy_from_slice(&got);
            Ok(got.len())
        }
        ReadPlan::Direct => {
            let head = acc.capacity();
            buf[..head].copy_from_slice(acc.current_slice());
            let n = acc.get_mut().read(&mut buf[head..])?;
            acc.consume(head + n);
            acc.reset_buffer_position();
            Ok(head + n)
        }
        ReadPlan::Refill => {
            fill_buf(acc)?;
            let got = acc.take(buf.len());
            buf[..got.len()].copy_from_slice(&got);
            Ok(got.len())
        }
    }
}

fn read_exact<R: Read + Seek>(acc: &mut AccReader<R>, mut buf: &mut [u8]) -> io::Result<()> {
    while !buf.is_empty() {
        let n = read(acc, buf)?;
        if n == 0 {
            return Err(io::Error::new(io::ErrorKind::UnexpectedEof, "end of data"));
        }
        buf = &mut buf[n..];
    }
    Ok(())
}

fn assert_read_acc(bytes: &[u8], capacity: usize, ranges: &[std::ops::Range<usize>]) {
    let c = Cursor::new(bytes);
    let mut vec = vec![0u8; bytes.len()];
    let mut acc = AccReader::with_capacity(capacity, c);

    for r in ranges {
        read_exact(&mut acc, &mut vec[r.clone()]).unwrap();
    }

    assert_eq!(bytes, &vec[..]);
}

#[test]
fn same_capacity_full_read() {
    let buf = (0u8..).take(20).collect::<Vec<u8>>();
    assert_read_acc(&buf, 20, &[0..buf.len()]);
}

#[test]
fn split_read_1() {
    let buf = (0u8..).take(31).collect::<Vec<u8>>();
    assert_read_acc(&buf, 20, &[0..10, 10..buf.len()]);
}

#[test]
fn split_read_2() {
    let buf = (0u8..).take(31).collect::<Vec<u8>>();
    assert_read_acc(&buf, 20, &[0..3, 3..buf.len()]);
}

#[test]
fn seek_within_capacity() {
    let buf = (0u8..).take(30).collect::<Vec<u8>>();
    let c = Cursor::new(&buf[..]);

    let mut acc = AccReader::with_capacity(15, c);

    assert_eq!(5, seek(&mut acc, io::SeekFrom::Current(5)).unwrap());
    assert_eq!(10, seek(&mut acc, io::SeekFrom::Current(5)).unwrap());
    assert_eq!(15, seek(&mut acc, io::SeekFrom::Current(5)).unwrap());
}

#[test]
fn seek_across_capacity() {
    let buf = (0u8..).take(30).collect::<Vec<u8>>();
    let c = Cursor::new(&buf[..]);

    let mut acc = AccReader::with_capacity(15, c);

    assert_eq!(5, seek(&mut acc, io::SeekFrom::Current(5)).unwrap());
    assert_eq!(20, seek(&mut acc, io::SeekFrom::Current(15)).unwrap());
    assert_eq!(5, seek(&mut acc, io::SeekFrom::Start(5)).unwrap());
}

fn read_byte<R: Read + Seek>(acc: &mut AccReader<R>) -> io::Result<u8> {
    let mut byte = [0];
    read_exact(acc, &mut byte)?;
    Ok(byte[0])
}

#[test]
fn seek_and_read() {
    let len = 30;
    let buf = (0u8..).take(len).collect::<Vec<u8>>();
    let c = Cursor::new(&buf[..]);

    let mut acc = AccReader::with_capacity(5, c);

    assert_eq!(0, seek(&mut acc, io::SeekFrom::Current(0)).unwrap());

    for i in 0..30 {
        assert_eq!(i, read_byte(&mut acc).unwrap() as u64);
        assert_eq!(i + 1, seek(&mut acc, io::SeekFrom::Current(0)).unwrap());
    }
}

#[test]
fn grow() {
    let buf = b"abcdefghilmnopqrst";
    let c = Cursor::new(&buf[..]);

    let mut acc = AccReader::with_capacity(4, c);
    fill_buf(&mut acc).unwrap();
    assert_eq!(b"abcd", acc.data());
    acc.consume(2);
    assert_eq!(b"cd", acc.data());
    acc.grow(4);
    assert_eq!(b"cd", acc.data());
    fill_buf(&mut acc).unwrap();
    assert_eq!(b"cdefghil", acc.data());
}

#[test]
fn accreader_state_steps() {
    let mut acc = AccReader::new(Cursor::new(vec![0u8; 3]));
    assert_eq!(acc.capacity(), 0);
    assert_eq!(acc.prepare_fill(), Some(4096));
    acc.commit_fill(&[1, 2, 3]);
    assert_eq!(acc.current_slice(), &[1, 2, 3]);
    assert_eq!(acc.read_plan(2), ReadPlan::Buffered);
    assert_eq!(acc.read_plan(3), ReadPlan::Refill);
    assert_eq!(acc.read_plan(5000), ReadPlan::Direct);
    assert_eq!(acc.take(2), vec![1, 2]);
    assert_eq!(acc.capacity(), 1);
    acc.reset_buffer_position();
    assert_eq!(acc.current_slice(), &[3]);
    // seeking backwards asks the reader, which stands past the buffered byte
    assert_eq!(
        acc.seek_buffered(SeekFrom::Current(-1)),
        SeekStep::Inner(SeekFrom::Current(-2))
    );
    // seeking past the buffered data asks the reader for the rest
    assert_eq!(
        acc.seek_buffered(SeekFrom::Current(5)),
        SeekStep::Inner(SeekFrom::Current(4))
    );
    assert_eq!(acc.seek_buffered(SeekFrom::Start(2)), SeekStep::Done(2));
    assert_eq!(acc.capacity(), 1);
    assert_eq!(acc.get_ref().get_ref().len(), 3);
    let inner = acc.into_inner();
    assert_eq!(inner.position(), 0);
}

#[test]
fn io_error_conversion() {
    let io_err = io::Error::new(io::ErrorKind::Other, "foobar");

    let err: Error = io_err.into();

    match err {
        Error::Io(_) => {}
        _ => panic!("Error doesn't match"),
    }
}

#[test]
fn error_text() {
    assert_eq!(Error::InvalidData.to_string(), "Invalid Data");
    assert_eq!(Error::MoreDataNeeded(12).to_string(), "12 more bytes needed");
    let io_err = io::Error::new(io::ErrorKind::Other, "foobar");
    assert_eq!(Error::from(io_err).to_string(), "I/O error");
}

struct DummyDemuxer {}

impl Demuxer for DummyDemuxer {
    fn read_headers<B: Buffered>(
        &mut self,
        buf: &mut B,
        _info: &mut GlobalInfo,
    ) -> Result<SeekFrom, Error> {
        let len = buf.data().len();
        if 9 > len {
            let needed = 9 - len;
            Err(Error::MoreDataNeeded(needed))
        } else {
            Ok(SeekFrom::Current(9))
        }
    }

    fn read_event<B: Buffered>(&mut self, buf: &mut B) -> Result<(SeekFrom, Event), Error> {
        let size = 2;
        let len = buf.data().len();
        if size > len {
            Err(Error::MoreDataNeeded(size - len))
        } else {
            match &buf.data()[..2] {
                b"p1" => Ok((SeekFrom::Current(3), Event::NewPacket(Packet::new()))),
                b"e1" => Ok((SeekFrom::Current(3), Event::MoreDataNeeded(0))),
                _ => Err(Error::InvalidData),
            }
        }
    }
}

struct DummyDes {
    d: Descr,
}

impl Descriptor for DummyDes {
    type OutputDemuxer = DummyDemuxer;

    fn create(&self) -> Self::OutputDemuxer {
        DummyDemuxer {}
    }

    fn describe(&self) -> &Descr {
        &self.d
    }

    fn probe(&self, data: &[u8]) -> u8 {
        match data {
            b"dummy" => 100,
            _ => 0,
        }
    }
}

const DUMMY_DES: &DummyDes = &DummyDes {
    d: Descr {
        name: "dummy",
        demuxer: "dummy",
        description: "Dummy dem",
        extensions: &["dm", "dum"],
        mime: &["application/dummy"],
    },
};

struct FirstByteDes {
    d: Descr,
}

impl Descriptor for FirstByteDes {
    type OutputDemuxer = DummyDemuxer;

    fn create(&self) -> Self::OutputDemuxer {
        DummyDemuxer {}
    }

    fn describe(&self) -> &Descr {
        &self.d
    }

    fn probe(&self, data: &[u8]) -> u8 {
        if data[0] == 0 {
            Score::MAX.value()
        } else {
            0
        }
    }
}

const FIRST_BYTE_DES: &FirstByteDes = &FirstByteDes {
    d: Descr {
        name: "Test",
        demuxer: "Test",
        description: "Test demuxer",
        extensions: &["test", "t"],
        mime: &["x-application/test"],
    },
};

#[test]
fn probe() {
    let demuxers: &[&'static DummyDes] = &[DUMMY_DES];

    demuxers.probe(b"dummy").unwrap();
    assert!(demuxers.probe(b"other").is_none());
}

#[test]
fn probe_demuxer() {
    let demuxer_builders: &[&'static FirstByteDes] = &[FIRST_BYTE_DES];
    let mut buf = [1; PROBE_DATA];

    match demuxer_builders.probe(&buf) {
        Some(_) => panic!(),
        None => (),
    };

    buf[0] = 0;

    match demuxer_builders.probe(&buf) {
        Some(_) => (),
        None => panic!(),
    };
}

#[test]
fn probe_picks_first_best_score() {
    assert_eq!(best_candidate(&[10, 60, 90, 90, 20]), Some(2));
    assert_eq!(best_candidate(&[50, 50]), None);
    assert_eq!(best_candidate(&[51]), Some(0));
    assert_eq!(best_candidate(&[]), None);
    assert_eq!(Score::EXTENSION.value(), 50);
    assert_eq!(Score::MIME.value(), 75);
}

fn read_headers_loop<D: Demuxer, R: Read + Seek>(
    c: &mut Context<D, AccReader<R>>,
) -> Result<(), Error> {
    loop {
        fill_buf(c.reader_mut())?;
        match c.read_headers_step() {
            Ok(pos) => {
                let _ = seek(c.reader_mut(), to_std(pos));
                return Ok(());
            }
            Err(e) => match headers_recovery(e) {
                Recovery::Grow(needed) => c.grow_reader(needed),
                Recovery::Retry => {}
                Recovery::Fail(e) => return Err(e),
            },
        }
    }
}

fn read_event_loop<D: Demuxer, R: Read + Seek>(
    c: &mut Context<D, AccReader<R>>,
) -> Result<Event, Error> {
    loop {
        let step = match c.read_event_step() {
            Ok((pos, event)) => {
                seek(c.reader_mut(), to_std(pos))?;
                c.apply_event(event)
            }
            Err(e) => Err(e),
        };
        match step {
            Ok(event) => return Ok(event),
            Err(e) => match c.event_recovery(e) {
                Recovery::Retry => {}
                Recovery::Grow(needed) => {
                    let len = c.reader().data().len();
                    c.grow_reader(needed);
                    fill_buf(c.reader_mut())?;
                    if c.reader().data().len() <= len {
                        return Ok(Event::Eof);
                    }
                }
                Recovery::Fail(e) => return Err(e),
            },
        }
    }
}

#[test]
fn read_headers() {
    let buf = b"dummy header";
    let r = AccReader::with_capacity(4, Cursor::new(buf));
    let d = DUMMY_DES.create();
    let mut c = Context::new(d, r);

    read_headers_loop(&mut c).unwrap();
    assert_eq!(c.reader().current_slice().len(), 0);
}

#[test]
fn read_event() {
    let buf = b"dummy header p1 e1 p1 ";

    let r = AccReader::with_capacity(4, Cursor::new(buf));
    let d = DUMMY_DES.create();
    let mut c = Context::new(d, r);

    read_headers_loop(&mut c).unwrap();

    for _ in 0..4 {
        let ev = read_event_loop(&mut c);
        println!("{:?}", ev);
        assert!(matches!(ev, Err(Error::InvalidData)));
    }
}

#[test]
fn apply_event_fills_timebase_and_streams() {
    let r = AccReader::with_capacity(4, Cursor::new(b"p1 p1 "));
    let mut c = Context::new(DummyDemuxer {}, r);
    let params = rust_av::data::params::CodecParams {
        kind: None,
        codec_id: None,
        extradata: Some(vec![1, 2]),
        bit_rate: 0,
        convergence_window: 0,
        delay: 0,
    };
    let tb = rust_av::data::rational::Rational64::new(1, 90000);
    let mut st = rust_av::format::stream::Stream::from_params(&params, tb);
    assert_eq!(st.get_extradata(), Some(&[1u8, 2][..]));
    st.index = 3;
    match c.apply_event(Event::NewStream(st)) {
        Ok(Event::NewStream(s)) => assert_eq!(s.index, 3),
        _ => panic!(),
    }
    assert_eq!(c.info.streams.len(), 1);
    let mut pkt = Packet::new();
    pkt.stream_index = 3;
    match c.apply_event(Event::NewPacket(pkt)) {
        Ok(Event::NewPacket(p)) => assert_eq!(p.t.timebase, Some(tb)),
        _ => panic!(),
    }
    let mut pkt = Packet::new();
    pkt.stream_index = 4;
    match c.apply_event(Event::NewPacket(pkt)) {
        Ok(Event::NewPacket(p)) => assert_eq!(p.t.timebase, None),
        _ => panic!(),
    }
    assert!(matches!(
        c.apply_event(Event::MoreDataNeeded(7)),
        Err(Error::MoreDataNeeded(7))
    ));
    assert!(matches!(c.apply_event(Event::Eof), Ok(Event::Eof)));
}

#[test]
fn add_stream_assigns_indices() {
    let params = rust_av::data::params::CodecParams {
        kind: None,
        codec_id: None,
        extradata: None,
        bit_rate: 0,
        convergence_window: 0,
        delay: 0,
    };
    let tb = rust_av::data::rational::Rational64::new(1, 1000);
    let mut info = GlobalInfo { duration: None, timebase: None, streams: Vec::new() };
    let mut st = rust_av::format::stream::Stream::from_params(&params, tb);
    st.index = 7;
    assert_eq!(info.add_stream(st), 0);
    assert_eq!(info.streams[0].index, 0);
    assert_eq!(info.streams[0].id, 7);
    let mut st = rust_av::format::stream::Stream::from_params(&params, tb);
    st.id = 42;
    assert_eq!(info.add_stream(st), 1);
    assert_eq!(info.streams[1].index, 1);
    assert_eq!(info.streams[1].id, 42);
    assert!(info.streams[1].get_extradata().is_none());
}

const MUX_DES: &MuxDescr = &MuxDescr {
    name: "dummy",
    demuxer: "dummy",
    description: "Dummy mux",
    extensions: &["mx", "mux"],
    mime: &["application/dummy"],
};

#[test]
fn muxer_lookup() {
    let muxers: &[&MuxDescr] = &[MUX_DES];

    assert_eq!(find_by_name(muxers, "dummy"), Some(0));
    assert_eq!(find_by_name(muxers, "other"), None);
    assert!(str_eq("abc", "abc"));
    assert!(!str_eq("abc", "abd"));
    assert!(!str_eq("abc", "ab"));
}

#[test]
fn writer_counts_bytes() {
    let mut writer = Writer::new(Vec::new());
    assert_eq!(writer.position(), 0);
    let header = b"Dummy header";
    writer.get_mut().write_all(header).unwrap();
    writer.record_write(header.len());
    for _ in 0..2 {
        writer.get_mut().write_all(&[0, 0]).unwrap();
        writer.record_write(2);
    }
    let (buffer, index) = writer.as_ref();
    assert_eq!(index, 12 + 4);
    assert_eq!(&buffer[..12], b"Dummy header");
    writer.record_seek(3);
    assert_eq!(writer.position(), 3);
    assert_eq!(writer.into_inner().len(), 16);
}

#[test]
fn new_stream_is_stored_as_given() {
    let r = AccReader::with_capacity(4, Cursor::new(b"p1 p1 "));
    let mut c = Context::new(DummyDemuxer {}, r);
    let params = rust_av::data::params::CodecParams {
        kind: None,
        codec_id: Some("dummy".to_string()),
        extradata: Some(vec![5, 6, 7]),
        bit_rate: 128,
        convergence_window: 2,
        delay: 1,
    };
    let tb = rust_av::data::rational::Rational64::new(1, 48000);
    let mut st = rust_av::format::stream::Stream::from_params(&params, tb);
    assert_eq!(st.params, params);
    st.id = 9;
    st.duration = Some(1000);
    assert!(c.apply_event(Event::NewStream(st)).is_ok());
    let stored = &c.info.streams[0];
    assert_eq!(stored.id, 9);
    assert_eq!(stored.duration, Some(1000));
    assert_eq!(stored.timebase, tb);
    assert_eq!(stored.params, params);
    assert_eq!(stored.get_extradata(), Some(&[5u8, 6, 7][..]));
}

#[test]
fn error_source_is_the_io_error() {
    let err: Error = io::Error::new(io::ErrorKind::NotFound, "missing").into();
    let inner = err.source().unwrap();
    assert_eq!(inner.kind(), io::ErrorKind::NotFound);
    assert!(Error::InvalidData.source().is_none());
    assert!(Error::MoreDataNeeded(3).source().is_none());
}

#[test]
fn writer_position_after_writes_and_seeks() {
    let mut writer = Writer::new(Vec::<u8>::new());
    for k in [12usize, 2, 2, 13] {
        writer.record_write(k);
    }
    assert_eq!(writer.position(), 29);
    writer.record_seek(5);
    writer.record_write(4);
    writer.record_write(1);
    assert_eq!(writer.position(), 10);
    assert_eq!(writer.as_ref().1, 10);
}

#[test]
fn acc_reader_reads_hand_out_stream_in_order() {
    let bytes: Vec<u8> = (0u8..31).collect();
    let mut acc = AccReader::with_capacity(5, Cursor::new(bytes.clone()));
    let mut out: Vec<u8> = Vec::new();
    for want in [3usize, 1, 7, 2, 20] {
        let mut buf = vec![0u8; want];
        let n = read(&mut acc, &mut buf).unwrap();
        assert!(n <= want);
        out.extend_from_slice(&buf[..n]);
        assert_eq!(acc.position(), out.len());
    }
    assert_eq!(&out[..], &bytes[..out.len()]);
}

#[test]
fn error_text_numbers() {
    assert_eq!(Error::MoreDataNeeded(0).to_string(), "0 more bytes needed");
    assert_eq!(Error::MoreDataNeeded(1234567890).to_string(), "1234567890 more bytes needed");
    assert_eq!(Error::MoreDataNeeded(10).to_string(), "10 more bytes needed");
}

#[test]
fn seek_backwards_from_buffered_position() {
    let buf: Vec<u8> = (0u8..30).collect();
    let mut acc = AccReader::with_capacity(15, Cursor::new(&buf[..]));
    assert_eq!(seek(&mut acc, io::SeekFrom::Current(5)).unwrap(), 5);
    assert_eq!(acc.current_slice(), &buf[5..20]);
    assert_eq!(seek(&mut acc, io::SeekFrom::Current(-2)).unwrap(), 3);
    let mut one = [0u8; 1];
    read_exact(&mut acc, &mut one).unwrap();
    assert_eq!(one[0], 3);
    assert_eq!(seek(&mut acc, io::SeekFrom::Current(2)).unwrap(), 6);
    assert_eq!(seek(&mut acc, io::SeekFrom::Current(-6)).unwrap(), 0);
    read_exact(&mut acc, &mut one).unwrap();
    assert_eq!(one[0], 0);
}

#[test]
fn direct_read_keeps_buffered_bytes_first() {
    let bytes: Vec<u8> = (0u8..40).collect();
    let mut acc = AccReader::with_capacity(4, Cursor::new(bytes.clone()));
    let mut small = [0u8; 2];
    read_exact(&mut acc, &mut small).unwrap();
    assert_eq!(small, [0, 1]);
    let mut big = [0u8; 10];
    let n = read(&mut acc, &mut big).unwrap();
    assert_eq!(&big[..n], &bytes[2..2 + n]);
    assert_eq!(acc.position(), 2 + n);
}
