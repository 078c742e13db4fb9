//! Audio sample formats and channel layouts.
use vstd::prelude::*;
use crate::align::{align, align_spec, round_to_byte, round_up, is_power_of_two};
use crate::text::{bool_str, bool_text, decimal, decimal_string};
use vstd::std_specs::cmp::PartialEqSpecImpl;

pub mod formats;

verus! {

/// Audio format definition.
#[derive(Debug, Copy, Clone, PartialEq, Eq, Structural)]
pub struct Soniton {
    /// Bits per sample.
    pub bits: u8,
    /// Tells if audio format is big-endian.
    pub be: bool,
    /// Audio samples are packed (e.g. 20-bit audio samples) and not padded.
    pub packed: bool,
    /// Audio data is stored in planar format
    /// (channels in sequence i.e. C1 C1 C1... C2 C2 C2) instead of interleaving
    /// samples (i.e. C1 C2 C1 C2) for different channels.
    pub planar: bool,
    /// Audio data is in floating point format.
    pub float: bool,
    /// Audio data is signed (usually only 8-bit audio is unsigned).
    pub signed: bool,
}

/// Bytes taken by `length` samples of `bits` bits, before alignment: packed
/// samples share bytes, unpacked ones take whole bytes each.
pub open spec fn audio_bytes(bits: u8, packed: bool, length: usize) -> int {
    if packed {
        (length * bits + 7) / 8
    } else {
        length * ((bits + 7) / 8)
    }
}

/// `get_audio_size` does not overflow.
pub open spec fn audio_size_ok(s: Soniton, length: usize, alignment: usize) -> bool {
    &&& alignment >= 1
    &&& if s.packed {
        length * s.bits + 7 <= usize::MAX
    } else {
        length * ((s.bits + 7) / 8) <= usize::MAX
    }
    &&& audio_bytes(s.bits, s.packed, length) + alignment <= usize::MAX
}

impl Soniton {
    /// Constructs a new audio format definition.
    pub fn new(bits: u8, be: bool, packed: bool, planar: bool, float: bool, signed: bool) -> (r:
        Self)
        ensures
            r == (Soniton { bits, be, packed, planar, float, signed }),
    {
        Soniton { bits, be, packed, planar, float, signed }
    }

    /// Returns the amount of bytes needed to store
    /// the audio of requested length (in samples).
    pub fn get_audio_size(self, length: usize, alignment: usize) -> (r: usize)
        requires
            audio_size_ok(self, length, alignment),
        ensures
            r == align_spec(audio_bytes(self.bits, self.packed, length) as usize, alignment),
            is_power_of_two(alignment as int) ==> r == round_up(
                audio_bytes(self.bits, self.packed, length),
                alignment as int,
            ),
    {
        let s = if self.packed {
            round_to_byte(length * (self.bits as usize))
        } else {
            length * round_to_byte(self.bits as usize)
        };

        align(s, alignment)
    }

    /// Bits per sample.
    pub fn get_bits(&self) -> (r: u8)
        ensures
            r == self.bits,
    {
        self.bits
    }

    /// Tells if audio format is big-endian.
    pub fn is_be(&self) -> (r: bool)
        ensures
            r == self.be,
    {
        self.be
    }

    /// Tells if audio samples are packed.
    pub fn is_packed(&self) -> (r: bool)
        ensures
            r == self.packed,
    {
        self.packed
    }

    /// Tells if audio data is stored in planar format.
    pub fn is_planar(&self) -> (r: bool)
        ensures
            r == self.planar,
    {
        self.planar
    }

    /// Tells if audio data is in floating point format.
    pub fn is_float(&self) -> (r: bool)
        ensures
            r == self.float,
    {
        self.float
    }

    /// Tells if audio data is signed.
    pub fn is_signed(&self) -> (r: bool)
        ensures
            r == self.signed,
    {
        self.signed
    }
}

/// Known audio channel types.
#[allow(non_camel_case_types, clippy::upper_case_acronyms)]
#[derive(Debug, Clone, Copy, PartialEq, Eq, Structural)]
pub enum ChannelType {
    C,
    L,
    R,
    Cs,
    Ls,
    Rs,
    Lss,
    Rss,
    LFE,
    Lc,
    Rc,
    Lh,
    Rh,
    Ch,
    LFE2,
    Lw,
    Rw,
    Ov,
    Lhs,
    Rhs,
    Chs,
    Ll,
    Rl,
    Cl,
    Lt,
    Rt,
    Lo,
    Ro,
}

/// The center channels (the low-frequency ones among them).
pub open spec fn spec_is_center(c: ChannelType) -> bool {
    ||| c == ChannelType::C
    ||| c == ChannelType::Ch
    ||| c == ChannelType::Cl
    ||| c == ChannelType::Ov
    ||| c == ChannelType::LFE
    ||| c == ChannelType::LFE2
    ||| c == ChannelType::Cs
    ||| c == ChannelType::Chs
}

/// The left channels.
pub open spec fn spec_is_left(c: ChannelType) -> bool {
    ||| c == ChannelType::L
    ||| c == ChannelType::Ls
    ||| c == ChannelType::Lss
    ||| c == ChannelType::Lc
    ||| c == ChannelType::Lh
    ||| c == ChannelType::Lw
    ||| c == ChannelType::Lhs
    ||| c == ChannelType::Ll
    ||| c == ChannelType::Lt
    ||| c == ChannelType::Lo
}

/// The right channels.
pub open spec fn spec_is_right(c: ChannelType) -> bool {
    ||| c == ChannelType::R
    ||| c == ChannelType::Rs
    ||| c == ChannelType::Rss
    ||| c == ChannelType::Rc
    ||| c == ChannelType::Rh
    ||| c == ChannelType::Rw
    ||| c == ChannelType::Rhs
    ||| c == ChannelType::Rl
    ||| c == ChannelType::Rt
    ||| c == ChannelType::Ro
}

impl ChannelType {
    /// Tells whether the channel is some center channel.
    pub fn is_center(self) -> (r: bool)
        ensures
            r == spec_is_center(self),
    {
        match self {
            ChannelType::C => true,
            ChannelType::Ch => true,
            ChannelType::Cl => true,
            ChannelType::Ov => true,
            ChannelType::LFE => true,
            ChannelType::LFE2 => true,
            ChannelType::Cs => true,
            ChannelType::Chs => true,
            _ => false,
        }
    }

    /// Tells whether the channel is some left channel.
    pub fn is_left(self) -> (r: bool)
        ensures
            r == spec_is_left(self),
    {
        match self {
            ChannelType::L => true,
            ChannelType::Ls => true,
            ChannelType::Lss => true,
            ChannelType::Lc => true,
            ChannelType::Lh => true,
            ChannelType::Lw => true,
            ChannelType::Lhs => true,
            ChannelType::Ll => true,
            ChannelType::Lt => true,
            ChannelType::Lo => true,
            _ => false,
        }
    }

    /// Tells whether the channel is some right channel.
    pub fn is_right(self) -> (r: bool)
        ensures
            r == spec_is_right(self),
    {
        match self {
            ChannelType::R => true,
            ChannelType::Rs => true,
            ChannelType::Rss => true,
            ChannelType::Rc => true,
            ChannelType::Rh => true,
            ChannelType::Rw => true,
            ChannelType::Rhs => true,
            ChannelType::Rl => true,
            ChannelType::Rt => true,
            ChannelType::Ro => true,
            _ => false,
        }
    }
}

/// A channel is at most one of center, left and right.
pub proof fn lemma_channel_sides_disjoint(c: ChannelType)
    ensures
        !(spec_is_center(c) && spec_is_left(c)),
        !(spec_is_center(c) && spec_is_right(c)),
        !(spec_is_left(c) && spec_is_right(c)),
{
}

/// An ordered sequence of channels.
#[derive(Debug, Default)]
pub struct ChannelMap {
    ids: Vec<ChannelType>,
}

impl Clone for ChannelMap {
    /// The same channels, in the same order.
    fn clone(&self) -> (r: Self)
        ensures
            r@ == self@,
    {
        let mut ids: Vec<ChannelType> = Vec::new();
        for i in 0..self.ids.len()
            invariant
                ids@ == self.ids@.take(i as int),
        {
            ids.push(self.ids[i]);
        }
        ChannelMap { ids }
    }
}

impl View for ChannelMap {
    type V = Seq<ChannelType>;

    closed spec fn view(&self) -> Seq<ChannelType> {
        self.ids@
    }
}

/// Position of the first occurrence of `t` in `ids`.
pub open spec fn first_position(ids: Seq<ChannelType>, t: ChannelType) -> Option<int> {
    if exists|i: int| 0 <= i < ids.len() && ids[i] == t {
        Some(
            choose|i: int|
                0 <= i < ids.len() && ids[i] == t && forall|j: int| 0 <= j < i ==> ids[j] != t,
        )
    } else {
        None
    }
}

impl ChannelMap {
    /// Creates a new sequence of channels.
    pub fn new() -> (r: Self)
        ensures
            r@ == Seq::<ChannelType>::empty(),
    {
        ChannelMap { ids: Vec::new() }
    }

    /// Adds a single channel to the map.
    pub fn add_channel(&mut self, ch: ChannelType)
        ensures
            final(self)@ == old(self)@.push(ch),
    {
        self.ids.push(ch);
    }

    /// Adds several channels to the map in order of occurrence.
    pub fn add_channels(&mut self, chs: &[ChannelType])
        ensures
            final(self)@ == old(self)@ + chs@,
    {
        let n = chs.len();
        let ghost start = self.ids@;
        let mut i: usize = 0;
        while i < n
            invariant
                n == chs@.len(),
                i <= n,
                self.ids@ == start + chs@.take(i as int),
            decreases n - i,
        {
            self.ids.push(chs[i]);
            i = i + 1;
            assert(chs@.take(i as int) == chs@.take((i - 1) as int).push(chs@[i - 1]));
        }
        assert(chs@.take(n as int) == chs@);
    }

    /// Returns the total number of channels of the map.
    pub fn len(&self) -> (r: usize)
        ensures
            r == self@.len(),
    {
        self.ids.len()
    }

    /// Returns the total number of channels of the map.
    pub fn num_channels(&self) -> (r: usize)
        ensures
            r == self@.len(),
    {
        self.ids.len()
    }

    /// Tells if the channel map is empty.
    pub fn is_empty(&self) -> (r: bool)
        ensures
            r == (self@.len() == 0),
    {
        self.ids.len() == 0
    }

    /// Gets the channel type for a requested index.
    pub fn get_channel(&self, idx: usize) -> (r: ChannelType)
        requires
            idx < self@.len(),
        ensures
            r == self@[idx as int],
    {
        self.ids[idx]
    }

    /// Tries to find the position of a determined type of channel in the map.
    ///
    /// The position is reported modulo 256.
    pub fn find_channel_id(&self, t: ChannelType) -> (r: Option<u8>)
        ensures
            r == match first_position(self@, t) {
                Some(i) => Some(i as u8),
                None => None::<u8>,
            },
    {
        let n = self.ids.len();
        let mut i: usize = 0;
        while i < n
            invariant
                n == self@.len(),
                i <= n,
                forall|j: int| 0 <= j < i ==> self@[j] != t,
            decreases n - i,
        {
            if self.ids[i] == t {
                proof {
                    let p = first_position(self@, t);
                    assert(p is Some);
                    let k = p->0;
                    assert(k == i) by {
                        if k < i {
                        } else if k > i {
                        }
                    }
                }
                return Some(i as u8);
            }
            i = i + 1;
        }
        None
    }

    /// Creates a default channel map.
    ///
    /// Depending on the `count` value, the channel map is defined differently.
    ///
    /// When `count` is 1 --> the channel map is composed by a single centered
    /// channel.
    ///
    /// When `count` is 2 --> the channel map is composed by a right and a left
    /// channel respectively.
    ///
    /// For other `count` values, no other implementations are given for now.
    pub fn default_map(count: usize) -> (r: Self)
        requires
            count == 1 || count == 2,
        ensures
            count == 1 ==> r@ == seq![ChannelType::C],
            count == 2 ==> r@ == seq![ChannelType::R, ChannelType::L],
    {
        let mut ids = Vec::new();
        if count == 1 {
            ids.push(ChannelType::C);
        } else {
            ids.push(ChannelType::R);
            ids.push(ChannelType::L);
        }
        ChannelMap { ids }
    }
}

proof fn lemma_first_position_is(ids: Seq<ChannelType>, t: ChannelType, k: int)
    requires
        0 <= k < ids.len(),
        ids[k] == t,
        forall|j: int| 0 <= j < k ==> ids[j] != t,
    ensures
        first_position(ids, t) == Some(k),
{
    let p = first_position(ids, t);
    assert(p is Some);
    let c = p->0;
    if c < k {
    } else if c > k {
    }
}

proof fn lemma_first_occurrence_exists(ids: Seq<ChannelType>, t: ChannelType, i: int)
    requires
        0 <= i < ids.len(),
        ids[i] == t,
    ensures
        exists|k: int| 0 <= k <= i && ids[k] == t && forall|j: int| 0 <= j < k ==> ids[j] != t,
    decreases i,
{
    if exists|j: int| 0 <= j < i && ids[j] == t {
        let j = choose|j: int| 0 <= j < i && ids[j] == t;
        lemma_first_occurrence_exists(ids, t, j);
    } else {
        assert(forall|j: int| 0 <= j < i ==> ids[j] != t);
    }
}

proof fn lemma_first_position_props(ids: Seq<ChannelType>, t: ChannelType)
    ensures
        first_position(ids, t) matches Some(k) ==> {
            &&& 0 <= k < ids.len()
            &&& ids[k] == t
            &&& forall|j: int| 0 <= j < k ==> ids[j] != t
        },
{
    if exists|i: int| 0 <= i < ids.len() && ids[i] == t {
        let i = choose|i: int| 0 <= i < ids.len() && ids[i] == t;
        lemma_first_occurrence_exists(ids, t, i);
    }
}

/// Adding a channel keeps where the channels already in the map are found,
/// and a channel the map lacked is found at the position it was added at.
pub proof fn lemma_find_after_add(ids: Seq<ChannelType>, ch: ChannelType, t: ChannelType)
    ensures
        first_position(ids, t) is Some ==> first_position(ids.push(ch), t) == first_position(
            ids,
            t,
        ),
        !ids.contains(ch) ==> first_position(ids.push(ch), ch) == Some(ids.len() as int),
{
    if first_position(ids, t) is Some {
        lemma_first_position_props(ids, t);
        let k = first_position(ids, t)->0;
        lemma_first_position_is(ids.push(ch), t, k);
    }
    if !ids.contains(ch) {
        assert forall|j: int| 0 <= j < ids.len() implies ids.push(ch)[j] != ch by {
            if ids[j] == ch {
                assert(ids.contains(ch));
            }
        }
        lemma_first_position_is(ids.push(ch), ch, ids.len() as int);
    }
}

/// The text form of a channel type.
pub open spec fn channel_type_text(v: ChannelType) -> Seq<char> {
    match v {
        ChannelType::C => "C"@,
        ChannelType::L => "L"@,
        ChannelType::R => "R"@,
        ChannelType::Cs => "Cs"@,
        ChannelType::Ls => "Ls"@,
        ChannelType::Rs => "Rs"@,
        ChannelType::Lss => "Lss"@,
        ChannelType::Rss => "Rss"@,
        ChannelType::LFE => "LFE"@,
        ChannelType::Lc => "Lc"@,
        ChannelType::Rc => "Rc"@,
        ChannelType::Lh => "Lh"@,
        ChannelType::Rh => "Rh"@,
        ChannelType::Ch => "Ch"@,
        ChannelType::LFE2 => "LFE2"@,
        ChannelType::Lw => "Lw"@,
        ChannelType::Rw => "Rw"@,
        ChannelType::Ov => "Ov"@,
        ChannelType::Lhs => "Lhs"@,
        ChannelType::Rhs => "Rhs"@,
        ChannelType::Chs => "Chs"@,
        ChannelType::Ll => "Ll"@,
        ChannelType::Rl => "Rl"@,
        ChannelType::Cl => "Cl"@,
        ChannelType::Lt => "Lt"@,
        ChannelType::Rt => "Rt"@,
        ChannelType::Lo => "Lo"@,
        ChannelType::Ro => "Ro"@,
    }
}

/// A number that tells apart texts of at most four ASCII characters.
pub open spec fn text_key(s: Seq<char>) -> int {
    s.len() * 268435456 + (if s.len() > 0 {
        s[0] as int
    } else {
        0
    }) + (if s.len() > 1 {
        s[1] as int * 128
    } else {
        0
    }) + (if s.len() > 2 {
        s[2] as int * 16384
    } else {
        0
    }) + (if s.len() > 3 {
        s[3] as int * 2097152
    } else {
        0
    })
}

/// The channel type whose text has key `k`, if any.
pub open spec fn channel_of_key(k: int) -> Option<ChannelType> {
    if k == 268435523 {
        Some(ChannelType::C)
    } else if k == 268435532 {
        Some(ChannelType::L)
    } else if k == 268435538 {
        Some(ChannelType::R)
    } else if k == 536885699 {
        Some(ChannelType::Cs)
    } else if k == 536885708 {
        Some(ChannelType::Ls)
    } else if k == 536885714 {
        Some(ChannelType::Rs)
    } else if k == 807205324 {
        Some(ChannelType::Lss)
    } else if k == 807205330 {
        Some(ChannelType::Rss)
    } else if k == 806445900 {
        Some(ChannelType::LFE)
    } else if k == 536883660 {
        Some(ChannelType::Lc)
    } else if k == 536883666 {
        Some(ChannelType::Rc)
    } else if k == 536884300 {
        Some(ChannelType::Lh)
    } else if k == 536884306 {
        Some(ChannelType::Rh)
    } else if k == 536884291 {
        Some(ChannelType::Ch)
    } else if k == 1179738956 {
        Some(ChannelType::LFE2)
    } else if k == 536886220 {
        Some(ChannelType::Lw)
    } else if k == 536886226 {
        Some(ChannelType::Rw)
    } else if k == 536886095 {
        Some(ChannelType::Ov)
    } else if k == 807203916 {
        Some(ChannelType::Lhs)
    } else if k == 807203922 {
        Some(ChannelType::Rhs)
    } else if k == 807203907 {
        Some(ChannelType::Chs)
    } else if k == 536884812 {
        Some(ChannelType::Ll)
    } else if k == 536884818 {
        Some(ChannelType::Rl)
    } else if k == 536884803 {
        Some(ChannelType::Cl)
    } else if k == 536885836 {
        Some(ChannelType::Lt)
    } else if k == 536885842 {
        Some(ChannelType::Rt)
    } else if k == 536885196 {
        Some(ChannelType::Lo)
    } else if k == 536885202 {
        Some(ChannelType::Ro)
    } else {
        None
    }
}

/// The text of each channel type leads back to it.
proof fn lemma_channel_text_decodes(t: ChannelType)
    ensures
        channel_of_key(text_key(channel_type_text(t))) == Some(t),
{
    match t {
        ChannelType::C => reveal_strlit("C"),
        ChannelType::L => reveal_strlit("L"),
        ChannelType::R => reveal_strlit("R"),
        ChannelType::Cs => reveal_strlit("Cs"),
        ChannelType::Ls => reveal_strlit("Ls"),
        ChannelType::Rs => reveal_strlit("Rs"),
        ChannelType::Lss => reveal_strlit("Lss"),
        ChannelType::Rss => reveal_strlit("Rss"),
        ChannelType::LFE => reveal_strlit("LFE"),
        ChannelType::Lc => reveal_strlit("Lc"),
        ChannelType::Rc => reveal_strlit("Rc"),
        ChannelType::Lh => reveal_strlit("Lh"),
        ChannelType::Rh => reveal_strlit("Rh"),
        ChannelType::Ch => reveal_strlit("Ch"),
        ChannelType::LFE2 => reveal_strlit("LFE2"),
        ChannelType::Lw => reveal_strlit("Lw"),
        ChannelType::Rw => reveal_strlit("Rw"),
        ChannelType::Ov => reveal_strlit("Ov"),
        ChannelType::Lhs => reveal_strlit("Lhs"),
        ChannelType::Rhs => reveal_strlit("Rhs"),
        ChannelType::Chs => reveal_strlit("Chs"),
        ChannelType::Ll => reveal_strlit("Ll"),
        ChannelType::Rl => reveal_strlit("Rl"),
        ChannelType::Cl => reveal_strlit("Cl"),
        ChannelType::Lt => reveal_strlit("Lt"),
        ChannelType::Rt => reveal_strlit("Rt"),
        ChannelType::Lo => reveal_strlit("Lo"),
        ChannelType::Ro => reveal_strlit("Ro"),
    }
}

/// Different channel types print differently: the text of a channel type
/// tells which one it is.
pub proof fn lemma_channel_text_distinct(a: ChannelType, b: ChannelType)
    requires
        channel_type_text(a) == channel_type_text(b),
    ensures
        a == b,
{
    lemma_channel_text_decodes(a);
    lemma_channel_text_decodes(b);
}

impl ChannelType {
    /// The text form of a channel type.
    pub fn to_string(&self) -> (r: String)
        ensures
            r@ == channel_type_text(*self),
    {
        let s: &str = match self {
            ChannelType::C => "C",
            ChannelType::L => "L",
            ChannelType::R => "R",
            ChannelType::Cs => "Cs",
            ChannelType::Ls => "Ls",
            ChannelType::Rs => "Rs",
            ChannelType::Lss => "Lss",
            ChannelType::Rss => "Rss",
            ChannelType::LFE => "LFE",
            ChannelType::Lc => "Lc",
            ChannelType::Rc => "Rc",
            ChannelType::Lh => "Lh",
            ChannelType::Rh => "Rh",
            ChannelType::Ch => "Ch",
            ChannelType::LFE2 => "LFE2",
            ChannelType::Lw => "Lw",
            ChannelType::Rw => "Rw",
            ChannelType::Ov => "Ov",
            ChannelType::Lhs => "Lhs",
            ChannelType::Rhs => "Rhs",
            ChannelType::Chs => "Chs",
            ChannelType::Ll => "Ll",
            ChannelType::Rl => "Rl",
            ChannelType::Cl => "Cl",
            ChannelType::Lt => "Lt",
            ChannelType::Rt => "Rt",
            ChannelType::Lo => "Lo",
            ChannelType::Ro => "Ro",
        };
        String::from_str(s)
    }
}

/// The text form of an audio format: its bits per sample, endianness,
/// flags and sample kind. The flag written after `planar:` is whether the
/// samples are packed, and the one after `packed:` whether they are planar.
pub open spec fn soniton_text(s: Soniton) -> Seq<char> {
    "("@ + decimal(s.bits as nat) + " bps, "@ + (if s.be {
        "BE"@
    } else {
        "LE"@
    }) + " planar: "@ + bool_text(s.packed) + " packed: "@ + bool_text(s.planar) + " "@ + (if s.float {
        "float"@
    } else if s.signed {
        "int"@
    } else {
        "uint"@
    }) + ")"@
}

impl Soniton {
    /// The text form of the audio format.
    pub fn to_string(&self) -> (r: String)
        ensures
            r@ == soniton_text(*self),
    {
        let fmt = if self.float {
            "float"
        } else if self.signed {
            "int"
        } else {
            "uint"
        };
        let end = if self.be {
            "BE"
        } else {
            "LE"
        };
        let mut s = String::from_str("(");
        let bits = decimal_string(self.bits as u64);
        s.append(bits.as_str());
        s.append(" bps, ");
        s.append(end);
        s.append(" planar: ");
        s.append(bool_str(self.packed));
        s.append(" packed: ");
        s.append(bool_str(self.planar));
        s.append(" ");
        s.append(fmt);
        s.append(")");
        s
    }
}

impl PartialEq for ChannelMap {
    fn eq(&self, other: &Self) -> (r: bool) {
        if self.ids.len() != other.ids.len() {
            return false;
        }
        let mut i: usize = 0;
        while i < self.ids.len()
            invariant
                self.ids@.len() == other.ids@.len(),
                i <= self.ids@.len(),
                forall|j: int| 0 <= j < i ==> self.ids@[j] == other.ids@[j],
            decreases self.ids@.len() - i,
        {
            if self.ids[i] != other.ids[i] {
                return false;
            }
            i = i + 1;
        }
        assert(self.ids@ =~= other.ids@);
        true
    }
}

impl PartialEqSpecImpl for ChannelMap {
    open spec fn obeys_eq_spec() -> bool {
        true
    }

    open spec fn eq_spec(&self, other: &Self) -> bool {
        self@ == other@
    }
}

} // verus!
