//! Expose all data and methods to represent pixels.
use vstd::prelude::*;
use vstd::arithmetic::power2::pow2;
use crate::align::{align, align_spec};
use crate::text::{decimal, decimal_string, hex, hex_string};
use crate::data::colorspace::{
    color_model_text,
    ChromaLocation, ColorModel, ColorPrimaries, MatrixCoefficients, TransferCharacteristic,
    primaries_code, transfer_code, matrix_code,
};

pub mod formats;

verus! {

/// Chroma definition for plane pixels.
///
/// Defines how plane pixels are subsampled and stored in memory.
#[derive(Clone, Copy, Debug, PartialEq, Eq, Structural)]
pub struct Chromaton {
    /// Horizontal subsampling in power of two
    /// (e.g. `0` = no subsampling, `1` = only every second value is stored).
    pub horizontal_subsampling: u8,
    /// Vertical subsampling in power of two
    /// (e.g. `0` = no subsampling, `1` = only every second value is stored).
    pub vertical_subsampling: u8,
    /// Tells whether plane pixels are packed.
    pub packed: bool,
    /// Bit depth for plane pixels.
    pub bit_depth: u8,
    /// Shift for a packed plane.
    pub shift: u8,
    /// Byte offset for a packed plane.
    pub plane_offset: u8,
    /// Byte offset to the next plane pixel in bytes.
    pub next_pixel: u8,
}

/// `x` divided by `2^k`, rounded up.
pub open spec fn ceil_shift(x: int, k: nat) -> int {
    (x + pow2(k) - 1) / (pow2(k) as int)
}

/// A plane subsampled by `2^k` covers the whole frame dimension `x`, with
/// no sample to spare: its `ceil_shift(x, k)` samples, each standing for
/// `2^k`, reach `x`, and one sample fewer would not.
pub proof fn lemma_ceil_shift_covers(x: int, k: nat)
    requires
        x >= 0,
    ensures
        ceil_shift(x, k) >= 0,
        ceil_shift(x, k) * pow2(k) >= x,
        (ceil_shift(x, k) - 1) * pow2(k) < x,
{
    let p = pow2(k) as int;
    vstd::arithmetic::power2::lemma_pow2_pos(k);
    let q = ceil_shift(x, k);
    vstd::arithmetic::div_mod::lemma_fundamental_div_mod(x + p - 1, p);
    let r = (x + p - 1) % p;
    vstd::arithmetic::div_mod::lemma_mod_bound(x + p - 1, p);
    assert(x + p - 1 == p * q + r);
    assert(q * p == p * q) by (nonlinear_arith);
    assert((q - 1) * p == q * p - p) by (nonlinear_arith);
    assert(q >= 0) by (nonlinear_arith)
        requires
            x + p - 1 == p * q + r,
            0 <= r < p,
            x >= 0,
            p > 0,
    ;
}

/// A subsampled dimension is computable: the shift is below the word size
/// and rounding up does not overflow.
pub open spec fn subsample_ok(x: usize, k: u8) -> bool {
    &&& k < usize::BITS
    &&& x + pow2(k as nat) - 1 <= usize::MAX
}

/// Bytes of one plane line of `w` samples of `d` bits, before alignment:
/// the fewest whole bytes that hold its bits.
pub open spec fn line_bytes(w: int, d: int) -> int {
    (w * d + 7) / 8
}

/// `linesize` does not overflow.
pub open spec fn linesize_ok(c: Chromaton, width: usize, alignment: usize) -> bool {
    let w = ceil_shift(width as int, c.horizontal_subsampling as nat);
    &&& subsample_ok(width, c.horizontal_subsampling)
    &&& w * c.bit_depth + 7 <= usize::MAX
    &&& alignment >= 1
    &&& line_bytes(w, c.bit_depth as int) + alignment <= usize::MAX
}

/// The minimal plane stride for a frame width.
pub open spec fn spec_linesize(c: Chromaton, width: usize, alignment: usize) -> usize {
    align_spec(
        line_bytes(ceil_shift(width as int, c.horizontal_subsampling as nat), c.bit_depth as int)
            as usize,
        alignment,
    )
}

proof fn lemma_ceil_shift(x: usize, k: u8)
    requires
        subsample_ok(x, k),
    ensures
        ((1usize << k as usize) - 1) as int == pow2(k as nat) - 1,
        pow2(k as nat) >= 1,
{
    vstd::bits::lemma_usize_pow2_no_overflow(k as nat);
    vstd::bits::lemma_usize_shl_is_mul(1usize, k as usize);
}

impl Chromaton {
    /// Constructs a new `Chromaton` instance.
    pub fn new(
        horizontal_subsampling: u8,
        vertical_subsampling: u8,
        packed: bool,
        bit_depth: u8,
        shift: u8,
        plane_offset: u8,
        next_pixel: u8,
    ) -> (r: Self)
        ensures
            r == (Chromaton {
                horizontal_subsampling,
                vertical_subsampling,
                packed,
                bit_depth,
                shift,
                plane_offset,
                next_pixel,
            }),
    {
        Self {
            horizontal_subsampling,
            vertical_subsampling,
            packed,
            bit_depth,
            shift,
            plane_offset,
            next_pixel,
        }
    }

    /// Constructs a specific `Chromaton` instance for `yuv8`.
    pub fn yuv8(horizontal_subsampling: u8, vertical_subsampling: u8, plane_offset: u8) -> (r:
        Chromaton)
        ensures
            r == (Chromaton { horizontal_subsampling: horizontal_subsampling, vertical_subsampling: vertical_subsampling, packed: false, bit_depth: 8, shift: 0, plane_offset: plane_offset, next_pixel: 1 }),
    {
        Chromaton::new(horizontal_subsampling, vertical_subsampling, false, 8, 0, plane_offset, 1)
    }

    /// Constructs a specific `Chromaton` instance for `yuvhb`.
    pub fn yuvhb(
        horizontal_subsampling: u8,
        vertical_subsampling: u8,
        depth: u8,
        plane_offset: u8,
    ) -> (r: Chromaton)
        ensures
            r == (Chromaton { horizontal_subsampling: horizontal_subsampling, vertical_subsampling: vertical_subsampling, packed: false, bit_depth: depth, shift: 0, plane_offset: plane_offset, next_pixel: 1 }),
    {
        Chromaton::new(horizontal_subsampling, vertical_subsampling, false, depth, 0, plane_offset, 1)
    }

    /// Constructs a specific `Chromaton` instance for `packrgb`.
    pub fn packrgb(depth: u8, shift: u8, plane_offset: u8, next_pixel: u8) -> (r: Chromaton)
        ensures
            r == (Chromaton { horizontal_subsampling: 0, vertical_subsampling: 0, packed: true, bit_depth: depth, shift: shift, plane_offset: plane_offset, next_pixel: next_pixel }),
    {
        Chromaton::new(0, 0, true, depth, shift, plane_offset, next_pixel)
    }

    /// Constructs a specific `Chromaton` instance for `pal8`.
    pub fn pal8(plane_offset: u8) -> (r: Chromaton)
        ensures
            r == (Chromaton { horizontal_subsampling: 0, vertical_subsampling: 0, packed: true, bit_depth: 8, shift: 0, plane_offset: plane_offset, next_pixel: 3 }),
    {
        Chromaton::new(0, 0, true, 8, 0, plane_offset, 3)
    }

    /// Calculates plane width from frame width.
    pub fn width(self, width: usize) -> (r: usize)
        requires
            subsample_ok(width, self.horizontal_subsampling),
        ensures
            r == ceil_shift(width as int, self.horizontal_subsampling as nat),
            r * pow2(self.horizontal_subsampling as nat) >= width,
            (r - 1) * pow2(self.horizontal_subsampling as nat) < width,
    {
        proof {
            lemma_ceil_shift_covers(width as int, self.horizontal_subsampling as nat);
        }
        let k = self.horizontal_subsampling as usize;
        proof {
            lemma_ceil_shift(width, self.horizontal_subsampling);
        }
        let x = width + ((1usize << k) - 1);
        proof {
            vstd::bits::lemma_usize_shr_is_div(x, k);
        }
        x >> k
    }

    /// Calculates plane height from frame height.
    pub fn height(self, height: usize) -> (r: usize)
        requires
            subsample_ok(height, self.vertical_subsampling),
        ensures
            r == ceil_shift(height as int, self.vertical_subsampling as nat),
            r * pow2(self.vertical_subsampling as nat) >= height,
            (r - 1) * pow2(self.vertical_subsampling as nat) < height,
    {
        proof {
            lemma_ceil_shift_covers(height as int, self.vertical_subsampling as nat);
        }
        let k = self.vertical_subsampling as usize;
        proof {
            lemma_ceil_shift(height, self.vertical_subsampling);
        }
        let x = height + ((1usize << k) - 1);
        proof {
            vstd::bits::lemma_usize_shr_is_div(x, k);
        }
        x >> k
    }

    /// Calculates the minimal plane stride from frame width.
    pub fn linesize(self, width: usize, alignment: usize) -> (r: usize)
        requires
            linesize_ok(self, width, alignment),
        ensures
            r == spec_linesize(self, width, alignment),
    {
        let d = self.bit_depth as usize;
        let w = self.width(width);
        let x = w * d + 7;
        assert(x >> 3usize == x / 8) by (bit_vector);
        align(x >> 3, alignment)
    }

    /// Calculates the required plane size in pixels from frame width, height,
    /// and a specific alignment.
    pub fn size(self, width: usize, height: usize, alignment: usize) -> (r: usize)
        requires
            linesize_ok(self, width, alignment),
            subsample_ok(height, self.vertical_subsampling),
            spec_linesize(self, width, alignment) * ceil_shift(
                height as int,
                self.vertical_subsampling as nat,
            ) <= usize::MAX,
        ensures
            r == spec_linesize(self, width, alignment) * ceil_shift(
                height as int,
                self.vertical_subsampling as nat,
            ),
    {
        let nh = self.height(height);
        self.linesize(width, alignment) * nh
    }
}

/// Pixel representation.
///
/// It contains color space information such as color models, primaries,
/// color space conversion functions, and chroma location.
///
/// This representation also contains additional information about pixels
/// such as their chroma definition.
#[derive(Clone, Copy, PartialEq, Eq, Debug)]
pub struct Pixel {
    /// Pixel color model.
    pub model: ColorModel,
    /// Pixel color primaries.
    pub primaries: ColorPrimaries,
    /// Pixel transfer characteristic.
    pub xfer: TransferCharacteristic,
    /// Pixel matrix coefficients.
    pub matrix: MatrixCoefficients,
    /// Pixel chroma location.
    pub chroma_location: ChromaLocation,
    /// Pixel definition for every plane.
    ///
    /// A whole pixel is formed overlapping the pixels of each plane.
    pub pixel_chroma_info: [Option<Chromaton>; 5],
    /// Pixel size in bytes for packed frame formats.
    pub pixel_size: u8,
    /// Tells whether a pixel is stored as big-endian.
    pub is_big_endian: bool,
    /// Tells whether a pixel has an alpha plane.
    pub has_alpha_plane: bool,
    /// Tells whether a pixel is paletted.
    pub is_paletted: bool,
}

/// The pixel format type under its former name.
pub type Formaton = Pixel;

/// Sum of the bit depths of the planes present in `planes`.
pub open spec fn depth_sum(planes: Seq<Option<Chromaton>>) -> int
    decreases planes.len(),
{
    if planes.len() == 0 {
        0
    } else {
        depth_sum(planes.drop_last()) + match planes.last() {
            Some(c) => c.bit_depth as int,
            None => 0,
        }
    }
}

/// Number of planes present in `planes`.
pub open spec fn plane_count(planes: Seq<Option<Chromaton>>) -> int
    decreases planes.len(),
{
    if planes.len() == 0 {
        0
    } else {
        plane_count(planes.drop_last()) + if planes.last() is Some {
            1int
        } else {
            0
        }
    }
}

impl Pixel {
    /// Constructs a new `Pixel` instance.
    pub fn new(model: ColorModel) -> (r: Self)
        ensures
            r.model == model,
            r.primaries == ColorPrimaries::Unspecified,
            r.xfer == TransferCharacteristic::Unspecified,
            r.matrix == MatrixCoefficients::Unspecified,
            r.chroma_location == ChromaLocation::Unspecified,
            forall|i: int| 0 <= i < 5 ==> r.pixel_chroma_info[i] is None,
            r.pixel_size == 0,
            !r.is_big_endian,
            !r.has_alpha_plane,
            !r.is_paletted,
    {
        Self {
            model,
            primaries: ColorPrimaries::Unspecified,
            xfer: TransferCharacteristic::Unspecified,
            matrix: MatrixCoefficients::Unspecified,
            chroma_location: ChromaLocation::Unspecified,
            pixel_chroma_info: [None, None, None, None, None],
            pixel_size: 0,
            is_big_endian: false,
            has_alpha_plane: false,
            is_paletted: false,
        }
    }

    /// Sets colorspace information such as color models, primaries,
    /// color space conversion functions, and chroma location.
    pub fn set_colorspace_info(
        self,
        primaries: ColorPrimaries,
        xfer: TransferCharacteristic,
        matrix: MatrixCoefficients,
        chroma_location: ChromaLocation,
    ) -> (r: Self)
        ensures
            r == (Pixel { primaries, xfer, matrix, chroma_location, ..self }),
    {
        let mut p = self;
        p.primaries = primaries;
        p.xfer = xfer;
        p.matrix = matrix;
        p.chroma_location = chroma_location;
        p
    }

    /// Sets pixel size in bytes for packed formats.
    pub fn size(self, pixel_size: u8) -> (r: Self)
        ensures
            r == (Pixel { pixel_size, ..self }),
    {
        let mut p = self;
        p.pixel_size = pixel_size;
        p
    }

    /// Pixel data is stored as big-endian.
    pub fn is_big_endian(self) -> (r: Self)
        ensures
            r == (Pixel { is_big_endian: true, ..self }),
    {
        let mut p = self;
        p.is_big_endian = true;
        p
    }

    /// Pixel has an alpha plane.
    pub fn has_alpha_plane(self) -> (r: Self)
        ensures
            r == (Pixel { has_alpha_plane: true, ..self }),
    {
        let mut p = self;
        p.has_alpha_plane = true;
        p
    }

    /// Pixel data is paletted.
    pub fn is_paletted(self) -> (r: Self)
        ensures
            r == (Pixel { is_paletted: true, ..self }),
    {
        let mut p = self;
        p.is_paletted = true;
        p
    }

    /// Sets the chromaton of plane `idx`.
    fn set_plane(self, idx: usize, chroma_data: Chromaton) -> (r: Self)
        requires
            idx < 5,
        ensures
            r == (Pixel {
                pixel_chroma_info: r.pixel_chroma_info,
                ..self
            }),
            r.pixel_chroma_info@ == self.pixel_chroma_info@.update(idx as int, Some(chroma_data)),
    {
        let mut p = self;
        p.pixel_chroma_info[idx] = Some(chroma_data);
        p
    }

    /// Adds first chromaton pixel plane.
    pub fn add_first_plane(self, chroma_data: Chromaton) -> (r: Self)
        ensures
            r == (Pixel { pixel_chroma_info: r.pixel_chroma_info, ..self }),
            r.pixel_chroma_info@ == self.pixel_chroma_info@.update(0, Some(chroma_data)),
    {
        self.set_plane(0, chroma_data)
    }

    /// Adds second chromaton pixel plane.
    pub fn add_second_plane(self, chroma_data: Chromaton) -> (r: Self)
        ensures
            r == (Pixel { pixel_chroma_info: r.pixel_chroma_info, ..self }),
            r.pixel_chroma_info@ == self.pixel_chroma_info@.update(1, Some(chroma_data)),
    {
        self.set_plane(1, chroma_data)
    }

    /// Adds third chromaton pixel plane.
    pub fn add_third_plane(self, chroma_data: Chromaton) -> (r: Self)
        ensures
            r == (Pixel { pixel_chroma_info: r.pixel_chroma_info, ..self }),
            r.pixel_chroma_info@ == self.pixel_chroma_info@.update(2, Some(chroma_data)),
    {
        self.set_plane(2, chroma_data)
    }

    /// Adds fourth chromaton pixel plane.
    pub fn add_fourth_plane(self, chroma_data: Chromaton) -> (r: Self)
        ensures
            r == (Pixel { pixel_chroma_info: r.pixel_chroma_info, ..self }),
            r.pixel_chroma_info@ == self.pixel_chroma_info@.update(3, Some(chroma_data)),
    {
        self.set_plane(3, chroma_data)
    }

    /// Adds fifth chromaton pixel plane.
    pub fn add_fifth_plane(self, chroma_data: Chromaton) -> (r: Self)
        ensures
            r == (Pixel { pixel_chroma_info: r.pixel_chroma_info, ..self }),
            r.pixel_chroma_info@ == self.pixel_chroma_info@.update(4, Some(chroma_data)),
    {
        self.set_plane(4, chroma_data)
    }

    /// Sums every pixel plane bit depth.
    pub fn pixel_bit_depths_sum(&self) -> (r: u8)
        requires
            depth_sum(self.pixel_chroma_info@) <= u8::MAX,
        ensures
            r == depth_sum(self.pixel_chroma_info@),
    {
        let mut sum: u8 = 0;
        let mut i: usize = 0;
        while i < 5
            invariant
                i <= 5,
                self.pixel_chroma_info@.len() == 5,
                depth_sum(self.pixel_chroma_info@) <= u8::MAX,
                sum == depth_sum(self.pixel_chroma_info@.take(i as int)),
            decreases 5 - i,
        {
            proof {
                lemma_depth_sum_prefix(self.pixel_chroma_info@, (i + 1) as int);
                assert(self.pixel_chroma_info@.take(i + 1).drop_last() == self.pixel_chroma_info@.take(i as int));
            }
            match self.pixel_chroma_info[i] {
                Some(c) => {
                    sum = sum + c.bit_depth;
                },
                None => {},
            }
            i = i + 1;
        }
        assert(self.pixel_chroma_info@.take(5) == self.pixel_chroma_info@);
        sum
    }

    /// Returns the number of planes which compose a pixel.
    pub fn planes(&self) -> (r: usize)
        ensures
            r == plane_count(self.pixel_chroma_info@),
    {
        let mut count: usize = 0;
        let mut i: usize = 0;
        while i < 5
            invariant
                i <= 5,
                self.pixel_chroma_info@.len() == 5,
                count == plane_count(self.pixel_chroma_info@.take(i as int)),
                count <= i,
            decreases 5 - i,
        {
            assert(self.pixel_chroma_info@.take(i + 1).drop_last() == self.pixel_chroma_info@.take(i as int));
            if self.pixel_chroma_info[i].is_some() {
                count = count + 1;
            }
            i = i + 1;
        }
        assert(self.pixel_chroma_info@.take(5) == self.pixel_chroma_info@);
        count
    }

    /// Parses frame primaries from `u32`.
    pub fn set_primaries_from_u32(self, pc: u32) -> (r: Option<ColorPrimaries>)
        ensures
            match r {
                Some(c) => primaries_code(c) == pc,
                None => forall|c: ColorPrimaries| primaries_code(c) != pc,
            },
    {
        ColorPrimaries::from_u32(pc)
    }

    /// Parses frame transfer characteristic from `u32`.
    pub fn set_xfer_from_u32(self, tc: u32) -> (r: Option<TransferCharacteristic>)
        ensures
            match r {
                Some(c) => transfer_code(c) == tc,
                None => forall|c: TransferCharacteristic| transfer_code(c) != tc,
            },
    {
        TransferCharacteristic::from_u32(tc)
    }

    /// Parses frame matrix coefficients from `u32`.
    pub fn set_matrix_from_u32(self, mc: u32) -> (r: Option<MatrixCoefficients>)
        ensures
            match r {
                Some(c) => matrix_code(c) == mc,
                None => forall|c: MatrixCoefficients| matrix_code(c) != mc,
            },
    {
        MatrixCoefficients::from_u32(mc)
    }

    /// Returns an iterator over the chroma definitions of the five planes.
    pub fn iter(&self) -> (r: std::slice::Iter<'_, Option<Chromaton>>)
        ensures
            exists|s: &[Option<Chromaton>]|
                s@ == self.pixel_chroma_info@ && r == vstd::std_specs::slice::spec_slice_iter(s),
    {
        let s = self.pixel_chroma_info.as_slice();
        s.iter()
    }

    /// Returns the plane chromaton associated with the plane identifier.
    pub fn chromaton(&self, idx: usize) -> (r: Option<Chromaton>)
        requires
            idx < 5,
        ensures
            r == self.pixel_chroma_info@[idx as int],
    {
        self.pixel_chroma_info[idx]
    }
}

proof fn lemma_depth_sum_prefix(planes: Seq<Option<Chromaton>>, k: int)
    requires
        0 <= k <= planes.len(),
    ensures
        depth_sum(planes.take(k)) <= depth_sum(planes),
    decreases planes.len(),
{
    if k < planes.len() {
        assert(planes.drop_last().take(k) == planes.take(k));
        lemma_depth_sum_prefix(planes.drop_last(), k);
    } else {
        assert(planes.take(k) == planes);
    }
}

/// The mask of the bits of a packed plane within a pixel.
pub open spec fn packed_mask(c: Chromaton) -> u32 {
    (((1u32 << c.bit_depth) - 1u32) as u32) << c.shift
}

/// A packed chroma definition can be written as text: its mask fits in 32
/// bits.
pub open spec fn chromaton_text_ok(c: Chromaton) -> bool {
    c.packed ==> c.bit_depth <= 30 && c.shift < 32
}

/// The text form of a chroma definition: its subsampling, then for a
/// packed plane its offset, bit mask (in hexadecimal) and step, for a
/// planar one its offset and step.
pub open spec fn chromaton_text(c: Chromaton) -> Seq<char> {
    let pfmt = if c.packed {
        "packed(+"@ + decimal(c.plane_offset as nat) + ","@ + hex(packed_mask(c) as nat)
            + ", step "@ + decimal(c.next_pixel as nat) + ")"@
    } else {
        "planar("@ + decimal(c.plane_offset as nat) + ","@ + decimal(c.next_pixel as nat) + ")"@
    };
    "("@ + decimal(c.horizontal_subsampling as nat) + "x"@ + decimal(
        c.vertical_subsampling as nat,
    ) + ", "@ + pfmt + ")"@
}

impl Chromaton {
    /// The text form of the chroma definition.
    pub fn to_string(&self) -> (r: String)
        requires
            chromaton_text_ok(*self),
        ensures
            r@ == chromaton_text(*self),
    {
        let mut pfmt: String;
        if self.packed {
            let bd = self.bit_depth;
            assert((1u32 << bd) >= 1) by (bit_vector)
                requires
                    bd <= 30,
            ;
            let mask: u32 = ((1u32 << bd) - 1u32) << self.shift;
            pfmt = String::from_str("packed(+");
            let off = decimal_string(self.plane_offset as u64);
            pfmt.append(off.as_str());
            pfmt.append(",");
            let m = hex_string(mask as u64);
            pfmt.append(m.as_str());
            pfmt.append(", step ");
            let step = decimal_string(self.next_pixel as u64);
            pfmt.append(step.as_str());
            pfmt.append(")");
        } else {
            pfmt = String::from_str("planar(");
            let off = decimal_string(self.plane_offset as u64);
            pfmt.append(off.as_str());
            pfmt.append(",");
            let step = decimal_string(self.next_pixel as u64);
            pfmt.append(step.as_str());
            pfmt.append(")");
        }
        let mut s = String::from_str("(");
        let h = decimal_string(self.horizontal_subsampling as u64);
        s.append(h.as_str());
        s.append("x");
        let v = decimal_string(self.vertical_subsampling as u64);
        s.append(v.as_str());
        s.append(", ");
        s.append(pfmt.as_str());
        s.append(")");
        s
    }
}

/// The text forms of the chroma definitions present in `planes`, each
/// after a space.
pub open spec fn chromatons_text(planes: Seq<Option<Chromaton>>) -> Seq<char>
    decreases planes.len(),
{
    if planes.len() == 0 {
        Seq::empty()
    } else {
        chromatons_text(planes.drop_last()) + match planes.last() {
            Some(c) => " "@ + chromaton_text(c),
            None => Seq::empty(),
        }
    }
}

/// The text form of a pixel format: its color model, flags, endianness,
/// pixel size and chroma definitions.
pub open spec fn pixel_text(p: Pixel) -> Seq<char> {
    "[Formaton for "@ + color_model_text(p.model) + " ("@ + (if p.is_paletted {
        "palette "@
    } else {
        ""@
    }) + (if p.has_alpha_plane {
        "alpha "@
    } else {
        ""@
    }) + "elem "@ + (if p.is_big_endian {
        "BE"@
    } else {
        "LE"@
    }) + " size "@ + decimal(p.pixel_size as nat) + "): "@ + chromatons_text(
        p.pixel_chroma_info@,
    ) + "]"@
}

impl Pixel {
    /// The text form of the pixel format.
    pub fn to_string(&self) -> (r: String)
        requires
            forall|i: int|
                0 <= i < 5 && (#[trigger] self.pixel_chroma_info@[i]) is Some ==> chromaton_text_ok(
                    self.pixel_chroma_info@[i].unwrap(),
                ),
        ensures
            r@ == pixel_text(*self),
    {
        let end = if self.is_big_endian {
            "BE"
        } else {
            "LE"
        };
        let palstr = if self.is_paletted {
            "palette "
        } else {
            ""
        };
        let astr = if self.has_alpha_plane {
            "alpha "
        } else {
            ""
        };
        let mut s = String::from_str("[Formaton for ");
        let model = self.model.to_string();
        s.append(model.as_str());
        s.append(" (");
        s.append(palstr);
        s.append(astr);
        s.append("elem ");
        s.append(end);
        s.append(" size ");
        let size = decimal_string(self.pixel_size as u64);
        s.append(size.as_str());
        s.append("): ");
        let ghost head = s@;
        let mut i: usize = 0;
        while i < 5
            invariant
                i <= 5,
                self.pixel_chroma_info@.len() == 5,
                forall|j: int|
                    0 <= j < 5 && (#[trigger] self.pixel_chroma_info@[j]) is Some
                        ==> chromaton_text_ok(self.pixel_chroma_info@[j].unwrap()),
                s@ == head + chromatons_text(self.pixel_chroma_info@.take(i as int)),
            decreases 5 - i,
        {
            assert(self.pixel_chroma_info@.take(i + 1).drop_last() == self.pixel_chroma_info@.take(
                i as int,
            ));
            match self.pixel_chroma_info[i] {
                Some(chr) => {
                    assert(self.pixel_chroma_info@[i as int] is Some);
                    s.append(" ");
                    let t = chr.to_string();
                    s.append(t.as_str());
                },
                None => {},
            }
            i = i + 1;
        }
        assert(self.pixel_chroma_info@.take(5) == self.pixel_chroma_info@);
        s.append("]");
        s
    }
}

/// Whether two pixel formats are the same.
pub fn same_format(a: &Pixel, b: &Pixel) -> (r: bool)
    ensures
        r == (*a == *b),
{
    if !(a.model == b.model && a.primaries == b.primaries && a.xfer == b.xfer && a.matrix
        == b.matrix && a.chroma_location == b.chroma_location && a.pixel_size == b.pixel_size
        && a.is_big_endian == b.is_big_endian && a.has_alpha_plane == b.has_alpha_plane
        && a.is_paletted == b.is_paletted) {
        return false;
    }
    let mut i: usize = 0;
    while i < 5
        invariant
            i <= 5,
            a.pixel_chroma_info@.len() == 5,
            b.pixel_chroma_info@.len() == 5,
            forall|j: int| 0 <= j < i ==> a.pixel_chroma_info@[j] == b.pixel_chroma_info@[j],
        decreases 5 - i,
    {
        let same = match (a.pixel_chroma_info[i], b.pixel_chroma_info[i]) {
            (Some(x), Some(y)) => x == y,
            (None, None) => true,
            _ => false,
        };
        if !same {
            assert(a.pixel_chroma_info@[i as int] != b.pixel_chroma_info@[i as int]);
            return false;
        }
        i = i + 1;
    }
    assert(a.pixel_chroma_info@ =~= b.pixel_chroma_info@);
    proof {
        vstd::array::axiom_array_ext_equal(a.pixel_chroma_info, b.pixel_chroma_info);
    }
    true
}

} // verus!
