//! Utilities for encoding video and audio formats.
use vstd::prelude::*;
use crate::codec::common::CodecList;
use crate::codec::error::Result;
use crate::data::frame::ArcFrame;
use crate::data::packet::Packet;
use crate::data::params::CodecParams;
use crate::data::value::Value;
use crate::codec::common::{first_with_name, position_of_name};

verus! {

/// Used to interact with an encoder.
pub trait Encoder: Send {
    /// Returns the extra data added by an encoder to a codec.
    fn get_extradata(&self) -> Option<Vec<u8>>;
    /// Sends to the encoder a frame to be encoded.
    fn send_frame(&mut self, pkt: &ArcFrame) -> Result<()>;
    /// Returns an encoded packet.
    fn receive_packet(&mut self) -> Result<Packet>;
    /// Tells encoder to clear its internal state.
    fn flush(&mut self) -> Result<()>;
    /// Configures the encoder.
    fn configure(&mut self) -> Result<()>;
    /// Sets an encoder option.
    fn set_option<'a>(&mut self, key: &str, val: Value<'a>) -> Result<()>;
    /// Sets the parameters associated to a determined codec.
    fn set_params(&mut self, params: &CodecParams) -> Result<()>;
    /// Gets the parameters associated to a determined codec.
    fn get_params(&self) -> Result<CodecParams>;
}

/// Auxiliary structure to encapsulate an encoder object and
/// its additional data.
pub struct Context<E: Encoder> {
    enc: E,
}

impl<E: Encoder> Context<E> {
    /// The encoder.
    pub closed spec fn encoder(&self) -> E {
        self.enc
    }

    /// Retrieves a codec descriptor from a codec list through its name,
    /// creates the relative encoder, and encapsulates it into a new `Context`.
    pub fn by_name<T: Descriptor<OutputEncoder = E> + ?Sized>(codecs: &Codecs<T>, name: &str) -> (r:
        Option<Self>)
        ensures
            exists|descrs: Seq<&'static Descr>|
                #[trigger] described_by(codecs.entries(), descrs) && match r {
                    Some(c) => exists|k: int|
                        first_with_name(codec_names(descrs), name, k) && call_ensures(
                            T::create,
                            (codecs.entries()[k],),
                            c.encoder(),
                        ),
                    None => forall|k: int|
                        0 <= k < descrs.len() ==> descrs[k].codec@ != name@,
                },
    {
        if let Some(builder) = codecs.by_name(name) {
            let enc = builder.create();
            Some(Context { enc })
        } else {
            None
        }
    }

    /// Configures the encoder: what the encoder's `configure` gives, and how
    /// it changes the encoder.
    pub fn configure(&mut self) -> (r: Result<()>)
        ensures
            exists|m: &mut E|
                *m == old(self).encoder() && *final(m) == final(self).encoder() && call_ensures(
                    E::configure,
                    (m,),
                    r,
                ),
    {
        self.enc.configure()
    }

    /// Sets the parameters associated to a determined codec: what the
    /// encoder's `set_params` gives, and how it changes the encoder.
    pub fn set_params(&mut self, params: &CodecParams) -> (r: Result<()>)
        ensures
            exists|m: &mut E|
                *m == old(self).encoder() && *final(m) == final(self).encoder() && call_ensures(
                    E::set_params,
                    (m, params),
                    r,
                ),
    {
        self.enc.set_params(params)
    }

    /// Gets the parameters associated to a determined codec.
    pub fn get_params(&self) -> (r: Result<CodecParams>)
        ensures
            call_ensures(E::get_params, (&self.encoder(),), r),
    {
        self.enc.get_params()
    }

    /// Sets an encoder option: the value converted to a `Value`, then what
    /// the encoder's `set_option` gives for it, and how it changes the
    /// encoder.
    pub fn set_option<'a, V>(&mut self, key: &str, val: V) -> (r: Result<()>) where
        V: Into<Value<'a>>,
        ensures
            exists|v: Value<'a>, m: &mut E|
                call_ensures(V::into, (val,), v) && *m == old(self).encoder() && *final(m)
                    == final(self).encoder() && call_ensures(E::set_option, (m, key, v), r),
    {
        self.enc.set_option(key, val.into())
    }

    /// Returns the extra data added by an encoder to a codec.
    pub fn get_extradata(&mut self) -> (r: Option<Vec<u8>>)
        ensures
            call_ensures(E::get_extradata, (&old(self).encoder(),), r),
            final(self).encoder() == old(self).encoder(),
    {
        self.enc.get_extradata()
    }

    /// Sends to the encoder a frame to be encoded: what the encoder's
    /// `send_frame` gives, and how it changes the encoder.
    pub fn send_frame(&mut self, frame: &ArcFrame) -> (r: Result<()>)
        ensures
            exists|m: &mut E|
                *m == old(self).encoder() && *final(m) == final(self).encoder() && call_ensures(
                    E::send_frame,
                    (m, frame),
                    r,
                ),
    {
        self.enc.send_frame(frame)
    }

    /// Returns an encoded packet: what the encoder's `receive_packet` gives,
    /// and how it changes the encoder.
    pub fn receive_packet(&mut self) -> (r: Result<Packet>)
        ensures
            exists|m: &mut E|
                *m == old(self).encoder() && *final(m) == final(self).encoder() && call_ensures(
                    E::receive_packet,
                    (m,),
                    r,
                ),
    {
        self.enc.receive_packet()
    }

    /// Tells encoder to clear its internal state: what the encoder's `flush`
    /// gives, and how it changes the encoder.
    pub fn flush(&mut self) -> (r: Result<()>)
        ensures
            exists|m: &mut E|
                *m == old(self).encoder() && *final(m) == final(self).encoder() && call_ensures(
                    E::flush,
                    (m,),
                    r,
                ),
    {
        self.enc.flush()
    }
}

/// Codec descriptor.
///
/// Contains information on a codec and its own encoder.
#[derive(Debug)]
pub struct Descr {
    /// The codec name.
    pub codec: &'static str,
    /// The extended codec name.
    pub name: &'static str,
    /// The codec description.
    pub desc: &'static str,
    /// The codec MIME.
    pub mime: &'static str,
}

/// Used to get the descriptor of a codec and create its own encoder.
pub trait Descriptor {
    /// The specific type of the encoder.
    type OutputEncoder: Encoder;

    /// Creates a new encoder for the requested codec.
    fn create(&self) -> Self::OutputEncoder;
    /// Returns the codec descriptor.
    fn describe(&self) -> &Descr;
}

/// `descrs` are what `describe` gave for each of `entries`, in order.
pub open spec fn described_by<T: Descriptor + ?Sized>(
    entries: Seq<&'static T>,
    descrs: Seq<&'static Descr>,
) -> bool {
    &&& descrs.len() == entries.len()
    &&& forall|i: int|
        0 <= i < entries.len() ==> call_ensures(T::describe, (entries[i],), #[trigger] descrs[i])
}

/// The codec names of `descrs`.
pub open spec fn codec_names(descrs: Seq<&'static Descr>) -> Seq<&'static str> {
    descrs.map_values(|d: &'static Descr| d.codec)
}

/// `r` is the first of `entries` whose descriptor in `descrs` names the
/// codec `name`, or `None` where none does.
pub open spec fn found_by_name<T: ?Sized>(
    entries: Seq<&'static T>,
    descrs: Seq<&'static Descr>,
    name: &str,
    r: Option<&'static T>,
) -> bool {
    match r {
        Some(d) => exists|k: int|
            first_with_name(codec_names(descrs), name, k) && entries[k] == d,
        None => forall|k: int| 0 <= k < descrs.len() ==> descrs[k].codec@ != name@,
    }
}

/// A list of codec descriptors, in the order they were appended.
pub struct Codecs<T: 'static + Descriptor + ?Sized> {
    list: Vec<&'static T>,
}

impl<T: Descriptor + ?Sized> CodecList for Codecs<T> {
    type D = T;

    closed spec fn entries(&self) -> Seq<&'static T> {
        self.list@
    }

    fn new() -> (r: Self) {
        Codecs { list: Vec::new() }
    }

    /// The first appended descriptor of the codec named `name`, by the
    /// codec names that the descriptors describe.
    fn by_name(&self, name: &str) -> (r: Option<&'static T>)
        ensures
            exists|descrs: Seq<&'static Descr>|
                #[trigger] described_by(self.entries(), descrs) && found_by_name(
                    self.entries(),
                    descrs,
                    name,
                    r,
                ),
    {
        let mut names: Vec<&str> = Vec::with_capacity(self.list.len());
        let ghost mut descrs: Seq<&'static Descr> = Seq::empty();
        let mut i: usize = 0;
        while i < self.list.len()
            invariant
                i <= self.list@.len(),
                names@.len() == i,
                described_by(self.list@.take(i as int), descrs),
                forall|j: int| 0 <= j < i ==> #[trigger] names@[j] == descrs[j].codec,
            decreases self.list@.len() - i,
        {
            let entry: &'static T = self.list[i];
            let d: &'static Descr = entry.describe();
            proof {
                descrs = descrs.push(d);
                assert(self.list@.take(i + 1) == self.list@.take(i as int).push(entry));
            }
            names.push(d.codec);
            i += 1;
        }
        proof {
            assert(self.list@.take(i as int) == self.list@);
        }
        assert(names@ == codec_names(descrs));
        assert(described_by(self.entries(), descrs));
        match position_of_name(names.as_slice(), name) {
            Some(k) => {
                assert(first_with_name(codec_names(descrs), name, k as int));
                Some(self.list[k])
            },
            None => {
                assert forall|k: int| 0 <= k < descrs.len() implies descrs[k].codec@ != name@ by {
                    assert(names@[k] == descrs[k].codec);
                }
                None
            },
        }
    }

    fn append(&mut self, desc: &'static T) {
        self.list.push(desc);
    }
}

} // verus!
