//! Packets definitions.
use vstd::prelude::*;
use crate::data::timeinfo::TimeInfo;
use std::sync::Arc;

verus! {

/// Packet with compressed data.
#[derive(Default, Debug, Clone)]
pub struct Packet {
    /// Packet data.
    pub data: Vec<u8>,
    /// Packet position in the stream.
    ///
    /// If `None`, the packet is not associated to a stream.
    pub pos: Option<usize>,
    /// Type of stream the packet is associated to.
    pub stream_index: isize,
    /// Packet timestamp information.
    pub t: TimeInfo,
    /// Tells whether a packet contains a keyframe.
    pub is_key: bool,
    /// Tells whether a packet is corrupted.
    pub is_corrupted: bool,
}

/// A packet with the given data, not associated to a stream, with no
/// timestamps and no flags.
pub open spec fn fresh_packet(p: Packet, data: Seq<u8>) -> bool {
    &&& p.data@ == data
    &&& p.pos is None
    &&& p.stream_index == -1
    &&& p.t.pts is None
    &&& p.t.dts is None
    &&& p.t.duration is None
    &&& p.t.timebase is None
    &&& p.t.user_private is None
    &&& !p.is_key
    &&& !p.is_corrupted
}

impl Packet {
    /// Creates a new empty `Packet` of a determined capacity.
    pub fn with_capacity(capacity: usize) -> (r: Self)
        ensures
            fresh_packet(r, Seq::empty()),
    {
        Packet {
            data: Vec::with_capacity(capacity),
            t: TimeInfo::default(),
            pos: None,
            stream_index: -1,
            is_key: false,
            is_corrupted: false,
        }
    }

    /// Creates a zero-initalized `Packet` of a determined capacity.
    pub fn zeroed(size: usize) -> (r: Self)
        ensures
            fresh_packet(r, Seq::new(size as nat, |i: int| 0u8)),
    {
        let data = vec![0u8; size];
        assert(data@ =~= Seq::new(size as nat, |i: int| 0u8));
        Packet {
            data,
            t: TimeInfo::default(),
            pos: None,
            stream_index: -1,
            is_key: false,
            is_corrupted: false,
        }
    }

    /// Creates a new empty `Packet`.
    pub fn new() -> (r: Self)
        ensures
            fresh_packet(r, Seq::empty()),
    {
        Self::with_capacity(0)
    }
}

/// A specialized type for a thread-safe reference-counting pointer `Packet`.
pub type ArcPacket = Arc<Packet>;

} // verus!
