//! Utilities for decoding video and audio formats.
use vstd::prelude::*;
use crate::codec::common::CodecList;
use crate::codec::error::Result;
use crate::data::frame::ArcFrame;
use crate::data::packet::Packet;
use crate::codec::common::{first_with_name, position_of_name};

verus! {

/// Used to interact with a decoder.
pub trait Decoder: Send + Sync {
    /// Saves the extra data contained in a codec.
    fn set_extradata(&mut self, extra: &[u8]);
    /// Sends to the decoder a packet to be decoded.
    fn send_packet(&mut self, pkt: &Packet) -> Result<()>;
    /// Returns a decoded frame.
    fn receive_frame(&mut self) -> Result<ArcFrame>;
    /// Configures the decoder.
    fn configure(&mut self) -> Result<()>;
    /// Tells decoder to clear its internal state.
    fn flush(&mut self) -> Result<()>;
}

/// Codec descriptor.
///
/// Contains information on a codec and its own decoder.
#[derive(Debug)]
pub struct Descr {
    /// The codec name.
    pub codec: &'static str,
    /// The extended codec name.
    pub name: &'static str,
    /// The codec description.
    pub desc: &'static str,
    /// The codec MIME.
    pub mime: &'static str,
}

/// Used to get the descriptor of a codec and create its own decoder.
pub trait Descriptor {
    /// The specific type of the decoder.
    type OutputDecoder: Decoder;

    /// Creates a new decoder for the requested codec.
    fn create(&self) -> Self::OutputDecoder;
    /// Returns the codec descriptor.
    fn describe(&self) -> &Descr;
}

/// Auxiliary structure to encapsulate a decoder object and
/// its additional data.
pub struct Context<D: Decoder> {
    dec: D,
}

impl<D: Decoder> Context<D> {
    /// The decoder.
    pub closed spec fn decoder(&self) -> D {
        self.dec
    }

    /// Retrieves a codec descriptor from a codec list through its name,
    /// creates the relative decoder, and encapsulates it into a new `Context`.
    pub fn by_name<T: Descriptor<OutputDecoder = D> + ?Sized>(codecs: &Codecs<T>, name: &str) -> (r:
        Option<Self>)
        ensures
            exists|descrs: Seq<&'static Descr>|
                #[trigger] described_by(codecs.entries(), descrs) && match r {
                    Some(c) => exists|k: int|
                        first_with_name(codec_names(descrs), name, k) && call_ensures(
                            T::create,
                            (codecs.entries()[k],),
                            c.decoder(),
                        ),
                    None => forall|k: int|
                        0 <= k < descrs.len() ==> descrs[k].codec@ != name@,
                },
    {
        if let Some(builder) = codecs.by_name(name) {
            let dec = builder.create();
            Some(Context { dec })
        } else {
            None
        }
    }

    /// Saves the extra data contained in a codec: the decoder's
    /// `set_extradata` acts on the decoder.
    pub fn set_extradata(&mut self, extra: &[u8])
        ensures
            exists|m: &mut D|
                *m == old(self).decoder() && *final(m) == final(self).decoder() && call_ensures(
                    D::set_extradata,
                    (m, extra),
                    (),
                ),
    {
        self.dec.set_extradata(extra);
    }

    /// Sends to the decoder a packet to be decoded: what the decoder's
    /// `send_packet` gives, and how it changes the decoder.
    pub fn send_packet(&mut self, pkt: &Packet) -> (r: Result<()>)
        ensures
            exists|m: &mut D|
                *m == old(self).decoder() && *final(m) == final(self).decoder() && call_ensures(
                    D::send_packet,
                    (m, pkt),
                    r,
                ),
    {
        self.dec.send_packet(pkt)
    }

    /// Returns a decoded frame: what the decoder's `receive_frame` gives,
    /// and how it changes the decoder.
    pub fn receive_frame(&mut self) -> (r: Result<ArcFrame>)
        ensures
            exists|m: &mut D|
                *m == old(self).decoder() && *final(m) == final(self).decoder() && call_ensures(
                    D::receive_frame,
                    (m,),
                    r,
                ),
    {
        self.dec.receive_frame()
    }

    /// Configures the decoder: what the decoder's `configure` gives, and how
    /// it changes the decoder.
    pub fn configure(&mut self) -> (r: Result<()>)
        ensures
            exists|m: &mut D|
                *m == old(self).decoder() && *final(m) == final(self).decoder() && call_ensures(
                    D::configure,
                    (m,),
                    r,
                ),
    {
        self.dec.configure()
    }

    /// Tells decoder to clear its internal state: what the decoder's `flush`
    /// gives, and how it changes the decoder.
    pub fn flush(&mut self) -> (r: Result<()>)
        ensures
            exists|m: &mut D|
                *m == old(self).decoder() && *final(m) == final(self).decoder() && call_ensures(
                    D::flush,
                    (m,),
                    r,
                ),
    {
        self.dec.flush()
    }
}

/// `descrs` are what `describe` gave for each of `entries`, in order.
pub open spec fn described_by<T: Descriptor + ?Sized>(
    entries: Seq<&'static T>,
    descrs: Seq<&'static Descr>,
) -> bool {
    &&& descrs.len() == entries.len()
    &&& forall|i: int|
        0 <= i < entries.len() ==> call_ensures(T::describe, (entries[i],), #[trigger] descrs[i])
}

/// The codec names of `descrs`.
pub open spec fn codec_names(descrs: Seq<&'static Descr>) -> Seq<&'static str> {
    descrs.map_values(|d: &'static Descr| d.codec)
}

/// `r` is the first of `entries` whose descriptor in `descrs` names the
/// codec `name`, or `None` where none does.
pub open spec fn found_by_name<T: ?Sized>(
    entries: Seq<&'static T>,
    descrs: Seq<&'static Descr>,
    name: &str,
    r: Option<&'static T>,
) -> bool {
    match r {
        Some(d) => exists|k: int|
            first_with_name(codec_names(descrs), name, k) && entries[k] == d,
        None => forall|k: int| 0 <= k < descrs.len() ==> descrs[k].codec@ != name@,
    }
}

/// A list of codec descriptors, in the order they were appended.
pub struct Codecs<T: 'static + Descriptor + ?Sized> {
    list: Vec<&'static T>,
}

impl<T: Descriptor + ?Sized> CodecList for Codecs<T> {
    type D = T;

    closed spec fn entries(&self) -> Seq<&'static T> {
        self.list@
    }

    fn new() -> (r: Self) {
        Codecs { list: Vec::new() }
    }

    /// The first appended descriptor of the codec named `name`, by the
    /// codec names that the descriptors describe.
    fn by_name(&self, name: &str) -> (r: Option<&'static T>)
        ensures
            exists|descrs: Seq<&'static Descr>|
                #[trigger] described_by(self.entries(), descrs) && found_by_name(
                    self.entries(),
                    descrs,
                    name,
                    r,
                ),
    {
        let mut names: Vec<&str> = Vec::with_capacity(self.list.len());
        let ghost mut descrs: Seq<&'static Descr> = Seq::empty();
        let mut i: usize = 0;
        while i < self.list.len()
            invariant
                i <= self.list@.len(),
                names@.len() == i,
                described_by(self.list@.take(i as int), descrs),
                forall|j: int| 0 <= j < i ==> #[trigger] names@[j] == descrs[j].codec,
            decreases self.list@.len() - i,
        {
            let entry: &'static T = self.list[i];
            let d: &'static Descr = entry.describe();
            proof {
                descrs = descrs.push(d);
                assert(self.list@.take(i + 1) == self.list@.take(i as int).push(entry));
            }
            names.push(d.codec);
            i += 1;
        }
        proof {
            assert(self.list@.take(i as int) == self.list@);
        }
        assert(names@ == codec_names(descrs));
        assert(described_by(self.entries(), descrs));
        match position_of_name(names.as_slice(), name) {
            Some(k) => {
                assert(first_with_name(codec_names(descrs), name, k as int));
                Some(self.list[k])
            },
            None => {
                assert forall|k: int| 0 <= k < descrs.len() implies descrs[k].codec@ != name@ by {
                    assert(names@[k] == descrs[k].codec);
                }
                None
            },
        }
    }

    fn append(&mut self, desc: &'static T) {
        self.list.push(desc);
    }
}

} // verus!
