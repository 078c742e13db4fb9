//! Expose all data and methods to interact with color spaces.
use vstd::prelude::*;

verus! {

/// YUV color range.
#[derive(Debug, Clone, Copy, PartialEq, Eq, Structural)]
pub enum YUVRange {
    /// Pixels in the range [16, 235].
    Limited,
    /// Pixels in the range [0, 255].
    Full,
}

/// Describes the matrix coefficients used in deriving
/// luma and chroma signals from the green, blue and red or X, Y and Z primaries.
///
/// Values adopted from Table 4 of ISO/IEC 23001-8:2013/DCOR1.
#[allow(clippy::upper_case_acronyms)]
#[derive(Debug, Clone, Copy, PartialEq, Eq, Structural)]
pub enum MatrixCoefficients {
    /// The identity matrix.
    /// Typically used for:
    ///
    /// - GBR (often referred to as RGB)
    /// - YZX (often referred to as XYZ)
    /// - IEC 61966-2-1 sRGB
    /// - SMPTE ST 428-1 (2019)
    Identity,
    /// - Rec. ITU-R BT.709-6
    /// - Rec. ITU-R BT.1361-0 conventional colour gamut system and extended colour
    ///   gamut system (historical)
    /// - IEC 61966-2-4 xvYCC709
    /// - SMPTE RP 177 (1993) Annex B
    BT709,
    /// Frame characteristics are unknown or are determined by the application.
    Unspecified,
    /// For future use by ITU-T | ISO/IEC.
    Reserved,
    /// United States Federal Communications Commission (2003) Title 47 Code of
    /// Federal Regulations 73.682 (a) (20)
    BT470M,
    /// - Rec. ITU-R BT.470-6 System B, G (historical)
    /// - Rec. ITU-R BT.601-7 625
    /// - Rec. ITU-R BT.1358-0 625 (historical)
    /// - Rec. ITU-R BT.1700-0 625 PAL and 625 SECAM
    /// - IEC 61966-2-1 sYCC
    /// - IEC 61966-2-4 xvYCC601
    ///
    /// (functionally the same as the value 6)
    BT470BG,
    /// - Rec. ITU-R BT.601-7 525
    /// - Rec. ITU-R BT.1358-1 525 or 625 (historical)
    /// - Rec. ITU-R BT.1700-0 NTSC
    /// - SMPTE ST 170 (2004)
    ///
    /// (functionally the same as the value 5)
    ST170M,
    /// SMPTE ST 240 (1999)
    ST240M,
    /// The YCoCg color model, also known as the YCgCo color model,
    /// is the color space formed from a simple transformation of
    /// an associated RGB color space into a luma value and
    /// two chroma values called chrominance green and chrominance orange.
    YCgCo,
    /// - Rec. ITU-R BT.2020-2 (non-constant luminance)
    /// - Rec. ITU-R BT.2100-2 Y′CbCr
    BT2020NonConstantLuminance,
    /// Rec. ITU-R BT.2020-2 (constant luminance)
    BT2020ConstantLuminance,
    /// SMPTE ST 2085 (2015)
    ST2085,
    /// Chromaticity-derived non-constant luminance system.
    ChromaticityDerivedNonConstantLuminance,
    /// Chromaticity-derived constant luminance system.
    ChromaticityDerivedConstantLuminance,
    /// Rec. ITU-R BT.2100-2 ICTCP
    ICtCp,
}

/// The code of each value, as in the table these values are taken from.
pub open spec fn matrix_code(c: MatrixCoefficients) -> u32 {
    match c {
        MatrixCoefficients::Identity => 0,
        MatrixCoefficients::BT709 => 1,
        MatrixCoefficients::Unspecified => 2,
        MatrixCoefficients::Reserved => 3,
        MatrixCoefficients::BT470M => 4,
        MatrixCoefficients::BT470BG => 5,
        MatrixCoefficients::ST170M => 6,
        MatrixCoefficients::ST240M => 7,
        MatrixCoefficients::YCgCo => 8,
        MatrixCoefficients::BT2020NonConstantLuminance => 9,
        MatrixCoefficients::BT2020ConstantLuminance => 10,
        MatrixCoefficients::ST2085 => 11,
        MatrixCoefficients::ChromaticityDerivedNonConstantLuminance => 12,
        MatrixCoefficients::ChromaticityDerivedConstantLuminance => 13,
        MatrixCoefficients::ICtCp => 14,
    }
}

impl MatrixCoefficients {
    /// Returns the value with the given code, if any.
    pub fn from_u32(n: u32) -> (r: Option<Self>)
        ensures
            match r {
                Some(c) => matrix_code(c) == n,
                None => forall|c: MatrixCoefficients| matrix_code(c) != n,
            },
    {
        match n {
            0 => Some(MatrixCoefficients::Identity),
            1 => Some(MatrixCoefficients::BT709),
            2 => Some(MatrixCoefficients::Unspecified),
            3 => Some(MatrixCoefficients::Reserved),
            4 => Some(MatrixCoefficients::BT470M),
            5 => Some(MatrixCoefficients::BT470BG),
            6 => Some(MatrixCoefficients::ST170M),
            7 => Some(MatrixCoefficients::ST240M),
            8 => Some(MatrixCoefficients::YCgCo),
            9 => Some(MatrixCoefficients::BT2020NonConstantLuminance),
            10 => Some(MatrixCoefficients::BT2020ConstantLuminance),
            11 => Some(MatrixCoefficients::ST2085),
            12 => Some(MatrixCoefficients::ChromaticityDerivedNonConstantLuminance),
            13 => Some(MatrixCoefficients::ChromaticityDerivedConstantLuminance),
            14 => Some(MatrixCoefficients::ICtCp),
            _ => None,
        }
    }

    /// Returns the code of the value.
    pub fn to_u32(self) -> (r: u32)
        ensures
            r == matrix_code(self),
    {
        match self {
            MatrixCoefficients::Identity => 0,
            MatrixCoefficients::BT709 => 1,
            MatrixCoefficients::Unspecified => 2,
            MatrixCoefficients::Reserved => 3,
            MatrixCoefficients::BT470M => 4,
            MatrixCoefficients::BT470BG => 5,
            MatrixCoefficients::ST170M => 6,
            MatrixCoefficients::ST240M => 7,
            MatrixCoefficients::YCgCo => 8,
            MatrixCoefficients::BT2020NonConstantLuminance => 9,
            MatrixCoefficients::BT2020ConstantLuminance => 10,
            MatrixCoefficients::ST2085 => 11,
            MatrixCoefficients::ChromaticityDerivedNonConstantLuminance => 12,
            MatrixCoefficients::ChromaticityDerivedConstantLuminance => 13,
            MatrixCoefficients::ICtCp => 14,
        }
    }
}

/// Indicates the chromaticity coordinates of the source colour primaries as specified in Table 2 in terms
/// of the CIE 1931 definition of x and y as specified by ISO 11664-1.
///
/// Values adopted from Table 4 of ISO/IEC 23001-8:2013/DCOR1.
#[derive(Debug, Clone, Copy, PartialEq, Eq, Structural)]
pub enum ColorPrimaries {
    /// For future use by ITU-T | ISO/IEC.
    Reserved0,
    /// - Rec. ITU-R BT.709-6
    /// - Rec. ITU-R BT.1361-0 conventional colour gamut
    ///   system and extended colour gamut system (historical)
    /// - IEC 61966-2-1 sRGB or sYCC
    /// - IEC 61966-2-4
    /// - Society of Motion Picture and Television Engineers
    ///   (SMPTE) RP 177 (1993) Annex B
    BT709,
    /// Frame characteristics are unknown or are determined by
    /// the application.
    Unspecified,
    /// For future use by ITU-T | ISO/IEC.
    Reserved,
    /// - Rec. ITU-R BT.470-6 System M (historical)
    /// - United States National Television System Committee
    ///   1953 Recommendation for transmission standards for
    ///   color television
    /// - United States Federal Communications Commission
    ///   (2003) Title 47 Code of Federal Regulations 73.682 (a) (20)
    BT470M,
    /// - Rec. ITU-R BT.470-6 System B, G (historical)
    /// - Rec. ITU-R BT.601-7 625
    /// - Rec. ITU-R BT.1358-0 625 (historical)
    /// - Rec. ITU-R BT.1700-0 625 PAL and 625 SECAM
    BT470BG,
    /// - Rec. ITU-R BT.601-7 525
    /// - Rec. ITU-R BT.1358-1 525 or 625 (historical)
    /// - Rec. ITU-R BT.1700-0 NTSC
    /// - SMPTE ST 170 (2004)
    ///
    /// (functionally the same as the value 7)
    ST170M,
    /// - SMPTE ST 240 (1999)
    ///
    /// (functionally the same as the value 6)
    ST240M,
    /// Generic film (colour filters using Illuminant C)
    Film,
    /// - Rec. ITU-R BT.2020-2
    /// - Rec. ITU-R BT.2100-2
    BT2020,
    /// - SMPTE ST 428-1 (2019)
    /// - (CIE 1931 XYZ as in ISO 11664-1)
    ST428,
    /// SMPTE RP 431-2 (2011)
    P3DCI,
    /// SMPTE EG 432-1 (2010)
    P3Display,
    /// No corresponding industry specification identified.
    Tech3213,
}

/// The code of each value, as in the table these values are taken from.
pub open spec fn primaries_code(c: ColorPrimaries) -> u32 {
    match c {
        ColorPrimaries::Reserved0 => 0,
        ColorPrimaries::BT709 => 1,
        ColorPrimaries::Unspecified => 2,
        ColorPrimaries::Reserved => 3,
        ColorPrimaries::BT470M => 4,
        ColorPrimaries::BT470BG => 5,
        ColorPrimaries::ST170M => 6,
        ColorPrimaries::ST240M => 7,
        ColorPrimaries::Film => 8,
        ColorPrimaries::BT2020 => 9,
        ColorPrimaries::ST428 => 10,
        ColorPrimaries::P3DCI => 11,
        ColorPrimaries::P3Display => 12,
        ColorPrimaries::Tech3213 => 22,
    }
}

impl ColorPrimaries {
    /// Returns the value with the given code, if any.
    pub fn from_u32(n: u32) -> (r: Option<Self>)
        ensures
            match r {
                Some(c) => primaries_code(c) == n,
                None => forall|c: ColorPrimaries| primaries_code(c) != n,
            },
    {
        match n {
            0 => Some(ColorPrimaries::Reserved0),
            1 => Some(ColorPrimaries::BT709),
            2 => Some(ColorPrimaries::Unspecified),
            3 => Some(ColorPrimaries::Reserved),
            4 => Some(ColorPrimaries::BT470M),
            5 => Some(ColorPrimaries::BT470BG),
            6 => Some(ColorPrimaries::ST170M),
            7 => Some(ColorPrimaries::ST240M),
            8 => Some(ColorPrimaries::Film),
            9 => Some(ColorPrimaries::BT2020),
            10 => Some(ColorPrimaries::ST428),
            11 => Some(ColorPrimaries::P3DCI),
            12 => Some(ColorPrimaries::P3Display),
            22 => Some(ColorPrimaries::Tech3213),
            _ => None,
        }
    }

    /// Returns the code of the value.
    pub fn to_u32(self) -> (r: u32)
        ensures
            r == primaries_code(self),
    {
        match self {
            ColorPrimaries::Reserved0 => 0,
            ColorPrimaries::BT709 => 1,
            ColorPrimaries::Unspecified => 2,
            ColorPrimaries::Reserved => 3,
            ColorPrimaries::BT470M => 4,
            ColorPrimaries::BT470BG => 5,
            ColorPrimaries::ST170M => 6,
            ColorPrimaries::ST240M => 7,
            ColorPrimaries::Film => 8,
            ColorPrimaries::BT2020 => 9,
            ColorPrimaries::ST428 => 10,
            ColorPrimaries::P3DCI => 11,
            ColorPrimaries::P3Display => 12,
            ColorPrimaries::Tech3213 => 22,
        }
    }
}

/// Either indicates the reference opto-electronic transfer characteristic
/// function of the source picture as a function of a source input linear optical intensity
/// input Lc with a nominal real-valued range of 0 to 1 or indicates the inverse of the
/// reference electro-optical transfer characteristic function as a function of an
/// output linear optical intensity Lo with a nominal real-valued range of 0 to 1.
///
/// Values adopted from Table 4 of ISO/IEC 23001-8:2013/DCOR1.
#[derive(Debug, Clone, Copy, PartialEq, Eq, Structural)]
pub enum TransferCharacteristic {
    /// For future use by ITU-T | ISO/IEC.
    Reserved0,
    /// - Rec. ITU-R BT.709-6
    /// - Rec. ITU-R BT.1361-0 conventional
    ///   colour gamut system (historical)
    ///
    /// (functionally the same as the values 6, 14 and 15)
    BT1886,
    /// Frame characteristics are unknown or
    /// are determined by the application.
    Unspecified,
    /// For future use by ITU-T | ISO/IEC.
    Reserved,
    /// Assumed display gamma 2.2.
    ///
    /// - Rec. ITU-R BT.470-6 System M
    ///   (historical)
    /// - United States National Television
    ///   System Committee 1953
    ///   Recommendation for transmission
    ///   standards for color television
    /// - United States Federal Communications
    ///   Commission (2003) Title 47 Code of
    ///   Federal Regulations 73.682 (a) (20)
    /// - Rec. ITU-R BT.1700-0 625 PAL and
    ///   625 SECAM
    BT470M,
    /// Assumed display gamma 2.8.
    ///
    /// Rec. ITU-R BT.470-6 System B, G (historical)
    BT470BG,
    /// - Rec. ITU-R BT.601-7 525 or 625
    /// - Rec. ITU-R BT.1358-1 525 or 625
    ///   (historical)
    /// - Rec. ITU-R BT.1700-0 NTSC
    /// - SMPTE ST 170 (2004)
    ///
    /// (functionally the same as the values 1, 14 and 15)
    ST170M,
    /// SMPTE ST 240 (1999)
    ST240M,
    /// Linear transfer characteristics
    Linear,
    /// Logarithmic transfer characteristic
    /// (100:1 range)
    Logarithmic100,
    /// Logarithmic transfer characteristic
    /// (100 * Sqrt( 10 ) : 1 range)
    Logarithmic316,
    /// IEC 61966-2-4
    XVYCC,
    /// Rec. ITU-R BT.1361-0 extended
    /// colour gamut system (historical)
    BT1361E,
    /// - IEC 61966-2-1 sRGB (with
    ///   MatrixCoefficients equal to 0)
    /// - IEC 61966-2-1 sYCC (with
    ///   MatrixCoefficients equal to 5)
    SRGB,
    /// Rec. ITU-R BT.2020-2 (10-bit system)
    ///
    /// (functionally the same as the values 1, 6 and 15)
    BT2020Ten,
    /// Rec. ITU-R BT.2020-2 (12-bit system)
    ///
    /// (functionally the same as the values 1, 6 and 14)
    BT2020Twelve,
    /// - SMPTE ST 2084 (2014) for 10-, 12-,
    ///   14- and 16-bit systems
    /// - Rec. ITU-R BT.2100-2 perceptual
    ///   quantization (PQ) system
    PerceptualQuantizer,
    /// SMPTE ST 428-1 (2019)
    ST428,
    /// - ARIB STD-B67 (2015)
    /// - Rec. ITU-R BT.2100-2 hybrid log-
    ///   gamma (HLG) system
    HybridLogGamma,
}

/// The code of each value, as in the table these values are taken from.
pub open spec fn transfer_code(c: TransferCharacteristic) -> u32 {
    match c {
        TransferCharacteristic::Reserved0 => 0,
        TransferCharacteristic::BT1886 => 1,
        TransferCharacteristic::Unspecified => 2,
        TransferCharacteristic::Reserved => 3,
        TransferCharacteristic::BT470M => 4,
        TransferCharacteristic::BT470BG => 5,
        TransferCharacteristic::ST170M => 6,
        TransferCharacteristic::ST240M => 7,
        TransferCharacteristic::Linear => 8,
        TransferCharacteristic::Logarithmic100 => 9,
        TransferCharacteristic::Logarithmic316 => 10,
        TransferCharacteristic::XVYCC => 11,
        TransferCharacteristic::BT1361E => 12,
        TransferCharacteristic::SRGB => 13,
        TransferCharacteristic::BT2020Ten => 14,
        TransferCharacteristic::BT2020Twelve => 15,
        TransferCharacteristic::PerceptualQuantizer => 16,
        TransferCharacteristic::ST428 => 17,
        TransferCharacteristic::HybridLogGamma => 18,
    }
}

impl TransferCharacteristic {
    /// Returns the value with the given code, if any.
    pub fn from_u32(n: u32) -> (r: Option<Self>)
        ensures
            match r {
                Some(c) => transfer_code(c) == n,
                None => forall|c: TransferCharacteristic| transfer_code(c) != n,
            },
    {
        match n {
            0 => Some(TransferCharacteristic::Reserved0),
            1 => Some(TransferCharacteristic::BT1886),
            2 => Some(TransferCharacteristic::Unspecified),
            3 => Some(TransferCharacteristic::Reserved),
            4 => Some(TransferCharacteristic::BT470M),
            5 => Some(TransferCharacteristic::BT470BG),
            6 => Some(TransferCharacteristic::ST170M),
            7 => Some(TransferCharacteristic::ST240M),
            8 => Some(TransferCharacteristic::Linear),
            9 => Some(TransferCharacteristic::Logarithmic100),
            10 => Some(TransferCharacteristic::Logarithmic316),
            11 => Some(TransferCharacteristic::XVYCC),
            12 => Some(TransferCharacteristic::BT1361E),
            13 => Some(TransferCharacteristic::SRGB),
            14 => Some(TransferCharacteristic::BT2020Ten),
            15 => Some(TransferCharacteristic::BT2020Twelve),
            16 => Some(TransferCharacteristic::PerceptualQuantizer),
            17 => Some(TransferCharacteristic::ST428),
            18 => Some(TransferCharacteristic::HybridLogGamma),
            _ => None,
        }
    }

    /// Returns the code of the value.
    pub fn to_u32(self) -> (r: u32)
        ensures
            r == transfer_code(self),
    {
        match self {
            TransferCharacteristic::Reserved0 => 0,
            TransferCharacteristic::BT1886 => 1,
            TransferCharacteristic::Unspecified => 2,
            TransferCharacteristic::Reserved => 3,
            TransferCharacteristic::BT470M => 4,
            TransferCharacteristic::BT470BG => 5,
            TransferCharacteristic::ST170M => 6,
            TransferCharacteristic::ST240M => 7,
            TransferCharacteristic::Linear => 8,
            TransferCharacteristic::Logarithmic100 => 9,
            TransferCharacteristic::Logarithmic316 => 10,
            TransferCharacteristic::XVYCC => 11,
            TransferCharacteristic::BT1361E => 12,
            TransferCharacteristic::SRGB => 13,
            TransferCharacteristic::BT2020Ten => 14,
            TransferCharacteristic::BT2020Twelve => 15,
            TransferCharacteristic::PerceptualQuantizer => 16,
            TransferCharacteristic::ST428 => 17,
            TransferCharacteristic::HybridLogGamma => 18,
        }
    }
}

/// Chroma sampling grid alignment for frames using the 4:2:0
/// color format (in which the two chroma arrays have half the width
/// and half the height of the associated luma array)
///
/// Values adopted from Table 4 of ISO/IEC 23001-8:2013/DCOR1.
#[derive(Debug, Clone, Copy, PartialEq, Eq, Structural)]
pub enum ChromaLocation {
    /// Unspecified grid alignment.
    Unspecified,
    /// Chroma left sampling grid alignment.
    Left,
    /// Chroma center sampling grid alignment.
    Center,
    /// Chroma top left sampling grid alignment.
    TopLeft,
    /// Chroma top sampling grid alignment.
    Top,
    /// Chroma bottom left sampling grid alignment.
    BottomLeft,
    /// Chroma bottom sampling grid alignment.
    Bottom,
}

/// All YUV color representations.
#[derive(Debug, Clone, Copy, PartialEq, Eq, Structural)]
pub enum YUVSystem {
    /// YCbCr is a family of color spaces used as a part of the color frame pipeline
    /// in video and digital photography systems. Y′ is the luma plane and CB and CR
    /// are the blue-difference and red-difference chroma planes.
    YCbCr(YUVRange),
    /// The YCoCg color model, also known as the YCgCo color model,
    /// is the color space formed from a simple transformation of
    /// an associated RGB color space into a luma value and
    /// two chroma values called chrominance green and chrominance orange.
    YCoCg,
    /// ICtCp is a color representation format specified in the Rec. ITU-R BT.2100 standard
    /// that is used as a part of the color frame pipeline in video and digital photography
    /// systems for high dynamic range (HDR) and wide color gamut (WCG) imagery.
    ICtCp,
}

/// Trichromatic color encoding system.
#[allow(clippy::upper_case_acronyms)]
#[derive(Debug, Clone, Copy, PartialEq, Eq, Structural)]
pub enum TrichromaticEncodingSystem {
    /// Frame represented by three color channels: Red, Green, and Blue.
    RGB,
    /// Frame represented by a luminance (luma) channel and two chroma channels.
    YUV(YUVSystem),
    /// In the CIE 1931 model, Y is the luminance, Z is quasi-equal to blue (of CIE RGB),
    /// and X is a mix of the three CIE RGB curves chosen to be nonnegative.
    /// Setting Y as luminance has the useful result that for any given Y value,
    /// the XZ plane will contain all possible chromaticities at that luminance.
    XYZ,
}

/// All supported color models.
#[allow(clippy::upper_case_acronyms)]
#[derive(Debug, Clone, Copy, PartialEq, Eq, Structural)]
pub enum ColorModel {
    /// A frame represented by three channels (or planes).
    ///
    /// Includes RGB, YUV, and XYZ.
    Trichromatic(TrichromaticEncodingSystem),
    /// The CMYK color model is a subtractive color model, based on the CMY color model,
    /// used in color printing, and is also used to describe the printing process itself.
    /// CMYK refers to the four ink plates used in some color printing: cyan, magenta, yellow, and key.
    CMYK,
    /// HSL and HSV are alternative representations of the RGB color model,
    /// designed in the 1970s by computer graphics researchers to more closely align
    /// with the way human vision perceives color-making attributes.
    HSV,
    /// The CIELAB color space expresses color as three values:
    /// L* for perceptual lightness, and a* and b* for the four unique colors of human vision:
    /// red, green, blue, and yellow.
    LAB,
}

impl ColorModel {
    /// Returns the number of components of a color model.
    pub fn default_components(self) -> (r: usize)
        ensures
            r == if self == ColorModel::CMYK {
                4usize
            } else {
                3usize
            },
    {
        match self {
            ColorModel::CMYK => 4,
            _ => 3,
        }
    }
}

/// The text form of a YUV range.
pub open spec fn yuv_range_text(v: YUVRange) -> Seq<char> {
    match v {
        YUVRange::Limited => "Limited range"@,
        YUVRange::Full => "Full range"@,
    }
}

impl YUVRange {
    /// The text form of a YUV range.
    pub fn to_string(&self) -> (r: String)
        ensures
            r@ == yuv_range_text(*self),
    {
        let s: &str = match self {
            YUVRange::Limited => "Limited range",
            YUVRange::Full => "Full range",
        };
        String::from_str(s)
    }
}

/// The text form of matrix coefficients.
pub open spec fn matrix_coefficients_text(v: MatrixCoefficients) -> Seq<char> {
    match v {
        MatrixCoefficients::Identity => "Identity"@,
        MatrixCoefficients::BT709 => "ITU BT.709"@,
        MatrixCoefficients::Unspecified => "Unspecified"@,
        MatrixCoefficients::Reserved => "Reserved"@,
        MatrixCoefficients::BT470M => "ITU BT.470M"@,
        MatrixCoefficients::BT470BG => "ITU BT.470BG"@,
        MatrixCoefficients::ST170M => "SMPTE ST-170M"@,
        MatrixCoefficients::ST240M => "SMPTE ST-240M"@,
        MatrixCoefficients::YCgCo => "YCgCo"@,
        MatrixCoefficients::BT2020NonConstantLuminance => "ITU BT.2020 (Non Constant Luminance)"@,
        MatrixCoefficients::BT2020ConstantLuminance => "ITU BT.2020 (Constant Luminance)"@,
        MatrixCoefficients::ST2085 => "SMPTE ST-2085"@,
        MatrixCoefficients::ChromaticityDerivedNonConstantLuminance => "Chromaticity Derived (Non ConstantLuminance)"@,
        MatrixCoefficients::ChromaticityDerivedConstantLuminance => "Chromaticity Derived (Constant Luminance)"@,
        MatrixCoefficients::ICtCp => "ICtCp"@,
    }
}

impl MatrixCoefficients {
    /// The text form of matrix coefficients.
    pub fn to_string(&self) -> (r: String)
        ensures
            r@ == matrix_coefficients_text(*self),
    {
        let s: &str = match self {
            MatrixCoefficients::Identity => "Identity",
            MatrixCoefficients::BT709 => "ITU BT.709",
            MatrixCoefficients::Unspecified => "Unspecified",
            MatrixCoefficients::Reserved => "Reserved",
            MatrixCoefficients::BT470M => "ITU BT.470M",
            MatrixCoefficients::BT470BG => "ITU BT.470BG",
            MatrixCoefficients::ST170M => "SMPTE ST-170M",
            MatrixCoefficients::ST240M => "SMPTE ST-240M",
            MatrixCoefficients::YCgCo => "YCgCo",
            MatrixCoefficients::BT2020NonConstantLuminance => "ITU BT.2020 (Non Constant Luminance)",
            MatrixCoefficients::BT2020ConstantLuminance => "ITU BT.2020 (Constant Luminance)",
            MatrixCoefficients::ST2085 => "SMPTE ST-2085",
            MatrixCoefficients::ChromaticityDerivedNonConstantLuminance => "Chromaticity Derived (Non ConstantLuminance)",
            MatrixCoefficients::ChromaticityDerivedConstantLuminance => "Chromaticity Derived (Constant Luminance)",
            MatrixCoefficients::ICtCp => "ICtCp",
        };
        String::from_str(s)
    }
}

/// The text form of color primaries.
pub open spec fn color_primaries_text(v: ColorPrimaries) -> Seq<char> {
    match v {
        ColorPrimaries::Reserved0 => "Identity"@,
        ColorPrimaries::BT709 => "ITU BT.709"@,
        ColorPrimaries::Unspecified => "Unspecified"@,
        ColorPrimaries::Reserved => "Reserved"@,
        ColorPrimaries::BT470M => "ITU BT.470M"@,
        ColorPrimaries::BT470BG => "ITU BT.470BG"@,
        ColorPrimaries::ST170M => "SMPTE ST-170M"@,
        ColorPrimaries::ST240M => "SMPTE ST-240M"@,
        ColorPrimaries::Film => "Film"@,
        ColorPrimaries::BT2020 => "ITU BT.2020"@,
        ColorPrimaries::ST428 => "SMPTE ST-428"@,
        ColorPrimaries::P3DCI => "DCI P3"@,
        ColorPrimaries::P3Display => "Display P3"@,
        ColorPrimaries::Tech3213 => "EBU Tech3213"@,
    }
}

impl ColorPrimaries {
    /// The text form of color primaries.
    pub fn to_string(&self) -> (r: String)
        ensures
            r@ == color_primaries_text(*self),
    {
        let s: &str = match self {
            ColorPrimaries::Reserved0 => "Identity",
            ColorPrimaries::BT709 => "ITU BT.709",
            ColorPrimaries::Unspecified => "Unspecified",
            ColorPrimaries::Reserved => "Reserved",
            ColorPrimaries::BT470M => "ITU BT.470M",
            ColorPrimaries::BT470BG => "ITU BT.470BG",
            ColorPrimaries::ST170M => "SMPTE ST-170M",
            ColorPrimaries::ST240M => "SMPTE ST-240M",
            ColorPrimaries::Film => "Film",
            ColorPrimaries::BT2020 => "ITU BT.2020",
            ColorPrimaries::ST428 => "SMPTE ST-428",
            ColorPrimaries::P3DCI => "DCI P3",
            ColorPrimaries::P3Display => "Display P3",
            ColorPrimaries::Tech3213 => "EBU Tech3213",
        };
        String::from_str(s)
    }
}

/// The text form of a transfer characteristic.
pub open spec fn transfer_characteristic_text(v: TransferCharacteristic) -> Seq<char> {
    match v {
        TransferCharacteristic::Reserved0 => "Identity"@,
        TransferCharacteristic::BT1886 => "ITU BT.1886"@,
        TransferCharacteristic::Unspecified => "Unspecified"@,
        TransferCharacteristic::Reserved => "Reserved"@,
        TransferCharacteristic::BT470M => "ITU BT.470M"@,
        TransferCharacteristic::BT470BG => "ITU BT.470BG"@,
        TransferCharacteristic::ST170M => "SMPTE ST-170M"@,
        TransferCharacteristic::ST240M => "SMPTE ST-240M"@,
        TransferCharacteristic::Linear => "Linear"@,
        TransferCharacteristic::Logarithmic100 => "Logarithmic 100:1 range"@,
        TransferCharacteristic::Logarithmic316 => "Logarithmic 316:1 range"@,
        TransferCharacteristic::XVYCC => "XVYCC"@,
        TransferCharacteristic::BT1361E => "ITU BT.1361 Extended Color Gamut"@,
        TransferCharacteristic::SRGB => "sRGB"@,
        TransferCharacteristic::BT2020Ten => "ITU BT.2020 for 10bit systems"@,
        TransferCharacteristic::BT2020Twelve => "ITU BT.2020 for 12bit systems"@,
        TransferCharacteristic::PerceptualQuantizer => "Perceptual Quantizer"@,
        TransferCharacteristic::ST428 => "SMPTE ST-428"@,
        TransferCharacteristic::HybridLogGamma => "Hybrid Log-Gamma"@,
    }
}

impl TransferCharacteristic {
    /// The text form of a transfer characteristic.
    pub fn to_string(&self) -> (r: String)
        ensures
            r@ == transfer_characteristic_text(*self),
    {
        let s: &str = match self {
            TransferCharacteristic::Reserved0 => "Identity",
            TransferCharacteristic::BT1886 => "ITU BT.1886",
            TransferCharacteristic::Unspecified => "Unspecified",
            TransferCharacteristic::Reserved => "Reserved",
            TransferCharacteristic::BT470M => "ITU BT.470M",
            TransferCharacteristic::BT470BG => "ITU BT.470BG",
            TransferCharacteristic::ST170M => "SMPTE ST-170M",
            TransferCharacteristic::ST240M => "SMPTE ST-240M",
            TransferCharacteristic::Linear => "Linear",
            TransferCharacteristic::Logarithmic100 => "Logarithmic 100:1 range",
            TransferCharacteristic::Logarithmic316 => "Logarithmic 316:1 range",
            TransferCharacteristic::XVYCC => "XVYCC",
            TransferCharacteristic::BT1361E => "ITU BT.1361 Extended Color Gamut",
            TransferCharacteristic::SRGB => "sRGB",
            TransferCharacteristic::BT2020Ten => "ITU BT.2020 for 10bit systems",
            TransferCharacteristic::BT2020Twelve => "ITU BT.2020 for 12bit systems",
            TransferCharacteristic::PerceptualQuantizer => "Perceptual Quantizer",
            TransferCharacteristic::ST428 => "SMPTE ST-428",
            TransferCharacteristic::HybridLogGamma => "Hybrid Log-Gamma",
        };
        String::from_str(s)
    }
}

/// The text form of a chroma location.
pub open spec fn chroma_location_text(v: ChromaLocation) -> Seq<char> {
    match v {
        ChromaLocation::Unspecified => "Unspecified"@,
        ChromaLocation::Left => "Left"@,
        ChromaLocation::Center => "Center"@,
        ChromaLocation::TopLeft => "TopLeft"@,
        ChromaLocation::Top => "Top"@,
        ChromaLocation::BottomLeft => "BottomLeft"@,
        ChromaLocation::Bottom => "Bottom"@,
    }
}

impl ChromaLocation {
    /// The text form of a chroma location.
    pub fn to_string(&self) -> (r: String)
        ensures
            r@ == chroma_location_text(*self),
    {
        let s: &str = match self {
            ChromaLocation::Unspecified => "Unspecified",
            ChromaLocation::Left => "Left",
            ChromaLocation::Center => "Center",
            ChromaLocation::TopLeft => "TopLeft",
            ChromaLocation::Top => "Top",
            ChromaLocation::BottomLeft => "BottomLeft",
            ChromaLocation::Bottom => "Bottom",
        };
        String::from_str(s)
    }
}

/// The text form of a YUV system.
pub open spec fn yuv_system_text(v: YUVSystem) -> Seq<char> {
    match v {
        YUVSystem::YCbCr(range) => "YCbCr ("@ + yuv_range_text(range) + ")"@,
        YUVSystem::YCoCg => "YCbCg"@,
        YUVSystem::ICtCp => "ICtCp"@,
    }
}

impl YUVSystem {
    /// The text form of a YUV system.
    pub fn to_string(&self) -> (r: String)
        ensures
            r@ == yuv_system_text(*self),
    {
        match self {
            YUVSystem::YCbCr(range) => {
                let mut s = String::from_str("YCbCr (");
                let inner = range.to_string();
                s.append(inner.as_str());
                s.append(")");
                s
            },
            YUVSystem::YCoCg => String::from_str("YCbCg"),
            YUVSystem::ICtCp => String::from_str("ICtCp"),
        }
    }
}

/// The text form of a trichromatic encoding system.
pub open spec fn trichromatic_encoding_system_text(v: TrichromaticEncodingSystem) -> Seq<char> {
    match v {
        TrichromaticEncodingSystem::YUV(system) => yuv_system_text(system),
        TrichromaticEncodingSystem::RGB => "RGB"@,
        TrichromaticEncodingSystem::XYZ => "XYZ"@,
    }
}

impl TrichromaticEncodingSystem {
    /// The text form of a trichromatic encoding system.
    pub fn to_string(&self) -> (r: String)
        ensures
            r@ == trichromatic_encoding_system_text(*self),
    {
        match self {
            TrichromaticEncodingSystem::YUV(system) => system.to_string(),
            TrichromaticEncodingSystem::RGB => String::from_str("RGB"),
            TrichromaticEncodingSystem::XYZ => String::from_str("XYZ"),
        }
    }
}

/// The text form of a color model.
pub open spec fn color_model_text(v: ColorModel) -> Seq<char> {
    match v {
        ColorModel::Trichromatic(system) => trichromatic_encoding_system_text(system),
        ColorModel::CMYK => "CMYK"@,
        ColorModel::HSV => "HSV"@,
        ColorModel::LAB => "LAB"@,
    }
}

impl ColorModel {
    /// The text form of a color model.
    pub fn to_string(&self) -> (r: String)
        ensures
            r@ == color_model_text(*self),
    {
        match self {
            ColorModel::Trichromatic(system) => system.to_string(),
            ColorModel::CMYK => String::from_str("CMYK"),
            ColorModel::HSV => String::from_str("HSV"),
            ColorModel::LAB => String::from_str("LAB"),
        }
    }
}

/// The codes of matrix coefficients are those of ISO/IEC 23001-8: 0 for
/// identity, 1 for BT.709, 9 and 10 for BT.2020, 14 for ICtCp, and so on.
pub proof fn lemma_matrix_standard_codes()
    ensures
        matrix_code(MatrixCoefficients::Identity) == 0,
        matrix_code(MatrixCoefficients::BT709) == 1,
        matrix_code(MatrixCoefficients::Unspecified) == 2,
        matrix_code(MatrixCoefficients::Reserved) == 3,
        matrix_code(MatrixCoefficients::BT470M) == 4,
        matrix_code(MatrixCoefficients::BT470BG) == 5,
        matrix_code(MatrixCoefficients::ST170M) == 6,
        matrix_code(MatrixCoefficients::ST240M) == 7,
        matrix_code(MatrixCoefficients::YCgCo) == 8,
        matrix_code(MatrixCoefficients::BT2020NonConstantLuminance) == 9,
        matrix_code(MatrixCoefficients::BT2020ConstantLuminance) == 10,
        matrix_code(MatrixCoefficients::ST2085) == 11,
        matrix_code(MatrixCoefficients::ChromaticityDerivedNonConstantLuminance) == 12,
        matrix_code(MatrixCoefficients::ChromaticityDerivedConstantLuminance) == 13,
        matrix_code(MatrixCoefficients::ICtCp) == 14,
{
}

/// The codes of color primaries are those of ISO/IEC 23001-8: 1 for BT.709,
/// 9 for BT.2020, 22 for EBU Tech 3213, and so on.
pub proof fn lemma_primaries_standard_codes()
    ensures
        primaries_code(ColorPrimaries::Reserved0) == 0,
        primaries_code(ColorPrimaries::BT709) == 1,
        primaries_code(ColorPrimaries::Unspecified) == 2,
        primaries_code(ColorPrimaries::Reserved) == 3,
        primaries_code(ColorPrimaries::BT470M) == 4,
        primaries_code(ColorPrimaries::BT470BG) == 5,
        primaries_code(ColorPrimaries::ST170M) == 6,
        primaries_code(ColorPrimaries::ST240M) == 7,
        primaries_code(ColorPrimaries::Film) == 8,
        primaries_code(ColorPrimaries::BT2020) == 9,
        primaries_code(ColorPrimaries::ST428) == 10,
        primaries_code(ColorPrimaries::P3DCI) == 11,
        primaries_code(ColorPrimaries::P3Display) == 12,
        primaries_code(ColorPrimaries::Tech3213) == 22,
{
}

/// The codes of transfer characteristics are those of ISO/IEC 23001-8: 1
/// for BT.1886, 13 for sRGB, 16 for PQ, 18 for HLG, and so on.
pub proof fn lemma_transfer_standard_codes()
    ensures
        transfer_code(TransferCharacteristic::Reserved0) == 0,
        transfer_code(TransferCharacteristic::BT1886) == 1,
        transfer_code(TransferCharacteristic::Unspecified) == 2,
        transfer_code(TransferCharacteristic::Reserved) == 3,
        transfer_code(TransferCharacteristic::BT470M) == 4,
        transfer_code(TransferCharacteristic::BT470BG) == 5,
        transfer_code(TransferCharacteristic::ST170M) == 6,
        transfer_code(TransferCharacteristic::ST240M) == 7,
        transfer_code(TransferCharacteristic::Linear) == 8,
        transfer_code(TransferCharacteristic::Logarithmic100) == 9,
        transfer_code(TransferCharacteristic::Logarithmic316) == 10,
        transfer_code(TransferCharacteristic::XVYCC) == 11,
        transfer_code(TransferCharacteristic::BT1361E) == 12,
        transfer_code(TransferCharacteristic::SRGB) == 13,
        transfer_code(TransferCharacteristic::BT2020Ten) == 14,
        transfer_code(TransferCharacteristic::BT2020Twelve) == 15,
        transfer_code(TransferCharacteristic::PerceptualQuantizer) == 16,
        transfer_code(TransferCharacteristic::ST428) == 17,
        transfer_code(TransferCharacteristic::HybridLogGamma) == 18,
{
}

/// Codes of matrix coefficients are distinct, so that `from_u32` gives
/// back the value whose code `to_u32` gave.
pub proof fn lemma_matrix_code_roundtrip(c: MatrixCoefficients, d: MatrixCoefficients)
    ensures
        matrix_code(d) == matrix_code(c) ==> d == c,
{
}

/// Codes of color primaries are distinct, so that `from_u32` gives back the
/// value whose code `to_u32` gave.
pub proof fn lemma_primaries_code_roundtrip(c: ColorPrimaries, d: ColorPrimaries)
    ensures
        primaries_code(d) == primaries_code(c) ==> d == c,
{
}

/// Codes of transfer characteristics are distinct, so that `from_u32` gives
/// back the value whose code `to_u32` gave.
pub proof fn lemma_transfer_code_roundtrip(c: TransferCharacteristic, d: TransferCharacteristic)
    ensures
        transfer_code(d) == transfer_code(c) ==> d == c,
{
}

} // verus!
