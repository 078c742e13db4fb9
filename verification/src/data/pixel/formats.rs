//! A series of common pixel formats.
use vstd::prelude::*;
use crate::data::colorspace::{
    ColorModel, TrichromaticEncodingSystem, YUVRange, YUVSystem, ColorPrimaries,
    TransferCharacteristic, MatrixCoefficients, ChromaLocation,
};
use crate::data::pixel::{Chromaton, Pixel};

verus! {

/// `p` is the format of the given model and planes, with unspecified color
/// space details.
pub open spec fn describes(
    p: Pixel,
    model: ColorModel,
    planes: Seq<Option<Chromaton>>,
    pixel_size: u8,
    has_alpha_plane: bool,
    is_paletted: bool,
) -> bool {
    &&& p.model == model
    &&& p.primaries == ColorPrimaries::Unspecified
    &&& p.xfer == TransferCharacteristic::Unspecified
    &&& p.matrix == MatrixCoefficients::Unspecified
    &&& p.chroma_location == ChromaLocation::Unspecified
    &&& p.pixel_chroma_info@ == planes
    &&& p.pixel_size == pixel_size
    &&& !p.is_big_endian
    &&& p.has_alpha_plane == has_alpha_plane
    &&& p.is_paletted == is_paletted
}

/// Predefined frame format for planar 8-bit YUV with 4:4:4 subsampling.
#[allow(non_snake_case)]
pub fn YUV444() -> (r: Pixel)
    ensures
        describes(
            r,
            ColorModel::Trichromatic(TrichromaticEncodingSystem::YUV(YUVSystem::YCbCr(YUVRange::Limited))),
            seq![
                Some(Chromaton { horizontal_subsampling: 0, vertical_subsampling: 0, packed: false, bit_depth: 8, shift: 0, plane_offset: 0, next_pixel: 1 }),
                Some(Chromaton { horizontal_subsampling: 0, vertical_subsampling: 0, packed: false, bit_depth: 8, shift: 0, plane_offset: 1, next_pixel: 1 }),
                Some(Chromaton { horizontal_subsampling: 0, vertical_subsampling: 0, packed: false, bit_depth: 8, shift: 0, plane_offset: 2, next_pixel: 1 }),
                None::<Chromaton>,
                None::<Chromaton>,
            ],
            0,
            false,
            false,
        ),
{
    let p = Pixel::new(ColorModel::Trichromatic(TrichromaticEncodingSystem::YUV(YUVSystem::YCbCr(YUVRange::Limited))))
        .add_first_plane(Chromaton::new(0, 0, false, 8, 0, 0, 1))
        .add_second_plane(Chromaton::yuv8(0, 0, 1))
        .add_third_plane(Chromaton::yuv8(0, 0, 2));
    assert(p.pixel_chroma_info@ =~= seq![
        Some(Chromaton { horizontal_subsampling: 0, vertical_subsampling: 0, packed: false, bit_depth: 8, shift: 0, plane_offset: 0, next_pixel: 1 }),
        Some(Chromaton { horizontal_subsampling: 0, vertical_subsampling: 0, packed: false, bit_depth: 8, shift: 0, plane_offset: 1, next_pixel: 1 }),
        Some(Chromaton { horizontal_subsampling: 0, vertical_subsampling: 0, packed: false, bit_depth: 8, shift: 0, plane_offset: 2, next_pixel: 1 }),
        None::<Chromaton>,
        None::<Chromaton>,
    ]);
    p
}

/// Predefined frame format for planar 8-bit YUV with 4:2:2 subsampling.
#[allow(non_snake_case)]
pub fn YUV422() -> (r: Pixel)
    ensures
        describes(
            r,
            ColorModel::Trichromatic(TrichromaticEncodingSystem::YUV(YUVSystem::YCbCr(YUVRange::Limited))),
            seq![
                Some(Chromaton { horizontal_subsampling: 0, vertical_subsampling: 0, packed: false, bit_depth: 8, shift: 0, plane_offset: 0, next_pixel: 1 }),
                Some(Chromaton { horizontal_subsampling: 0, vertical_subsampling: 1, packed: false, bit_depth: 8, shift: 0, plane_offset: 1, next_pixel: 1 }),
                Some(Chromaton { horizontal_subsampling: 0, vertical_subsampling: 1, packed: false, bit_depth: 8, shift: 0, plane_offset: 2, next_pixel: 1 }),
                None::<Chromaton>,
                None::<Chromaton>,
            ],
            0,
            false,
            false,
        ),
{
    let p = Pixel::new(ColorModel::Trichromatic(TrichromaticEncodingSystem::YUV(YUVSystem::YCbCr(YUVRange::Limited))))
        .add_first_plane(Chromaton::new(0, 0, false, 8, 0, 0, 1))
        .add_second_plane(Chromaton::yuv8(0, 1, 1))
        .add_third_plane(Chromaton::yuv8(0, 1, 2));
    assert(p.pixel_chroma_info@ =~= seq![
        Some(Chromaton { horizontal_subsampling: 0, vertical_subsampling: 0, packed: false, bit_depth: 8, shift: 0, plane_offset: 0, next_pixel: 1 }),
        Some(Chromaton { horizontal_subsampling: 0, vertical_subsampling: 1, packed: false, bit_depth: 8, shift: 0, plane_offset: 1, next_pixel: 1 }),
        Some(Chromaton { horizontal_subsampling: 0, vertical_subsampling: 1, packed: false, bit_depth: 8, shift: 0, plane_offset: 2, next_pixel: 1 }),
        None::<Chromaton>,
        None::<Chromaton>,
    ]);
    p
}

/// Predefined frame format for planar 8-bit YUV with 4:2:0 subsampling.
#[allow(non_snake_case)]
pub fn YUV420() -> (r: Pixel)
    ensures
        describes(
            r,
            ColorModel::Trichromatic(TrichromaticEncodingSystem::YUV(YUVSystem::YCbCr(YUVRange::Limited))),
            seq![
                Some(Chromaton { horizontal_subsampling: 0, vertical_subsampling: 0, packed: false, bit_depth: 8, shift: 0, plane_offset: 0, next_pixel: 1 }),
                Some(Chromaton { horizontal_subsampling: 1, vertical_subsampling: 1, packed: false, bit_depth: 8, shift: 0, plane_offset: 1, next_pixel: 1 }),
                Some(Chromaton { horizontal_subsampling: 1, vertical_subsampling: 1, packed: false, bit_depth: 8, shift: 0, plane_offset: 2, next_pixel: 1 }),
                None::<Chromaton>,
                None::<Chromaton>,
            ],
            0,
            false,
            false,
        ),
{
    let p = Pixel::new(ColorModel::Trichromatic(TrichromaticEncodingSystem::YUV(YUVSystem::YCbCr(YUVRange::Limited))))
        .add_first_plane(Chromaton::new(0, 0, false, 8, 0, 0, 1))
        .add_second_plane(Chromaton::yuv8(1, 1, 1))
        .add_third_plane(Chromaton::yuv8(1, 1, 2));
    assert(p.pixel_chroma_info@ =~= seq![
        Some(Chromaton { horizontal_subsampling: 0, vertical_subsampling: 0, packed: false, bit_depth: 8, shift: 0, plane_offset: 0, next_pixel: 1 }),
        Some(Chromaton { horizontal_subsampling: 1, vertical_subsampling: 1, packed: false, bit_depth: 8, shift: 0, plane_offset: 1, next_pixel: 1 }),
        Some(Chromaton { horizontal_subsampling: 1, vertical_subsampling: 1, packed: false, bit_depth: 8, shift: 0, plane_offset: 2, next_pixel: 1 }),
        None::<Chromaton>,
        None::<Chromaton>,
    ]);
    p
}

/// Predefined frame format for planar 8-bit YUV with 4:1:1 subsampling.
#[allow(non_snake_case)]
pub fn YUV411() -> (r: Pixel)
    ensures
        describes(
            r,
            ColorModel::Trichromatic(TrichromaticEncodingSystem::YUV(YUVSystem::YCbCr(YUVRange::Limited))),
            seq![
                Some(Chromaton { horizontal_subsampling: 0, vertical_subsampling: 0, packed: false, bit_depth: 8, shift: 0, plane_offset: 0, next_pixel: 1 }),
                Some(Chromaton { horizontal_subsampling: 2, vertical_subsampling: 0, packed: false, bit_depth: 8, shift: 0, plane_offset: 1, next_pixel: 1 }),
                Some(Chromaton { horizontal_subsampling: 2, vertical_subsampling: 0, packed: false, bit_depth: 8, shift: 0, plane_offset: 2, next_pixel: 1 }),
                None::<Chromaton>,
                None::<Chromaton>,
            ],
            0,
            false,
            false,
        ),
{
    let p = Pixel::new(ColorModel::Trichromatic(TrichromaticEncodingSystem::YUV(YUVSystem::YCbCr(YUVRange::Limited))))
        .add_first_plane(Chromaton::new(0, 0, false, 8, 0, 0, 1))
        .add_second_plane(Chromaton::yuv8(2, 0, 1))
        .add_third_plane(Chromaton::yuv8(2, 0, 2));
    assert(p.pixel_chroma_info@ =~= seq![
        Some(Chromaton { horizontal_subsampling: 0, vertical_subsampling: 0, packed: false, bit_depth: 8, shift: 0, plane_offset: 0, next_pixel: 1 }),
        Some(Chromaton { horizontal_subsampling: 2, vertical_subsampling: 0, packed: false, bit_depth: 8, shift: 0, plane_offset: 1, next_pixel: 1 }),
        Some(Chromaton { horizontal_subsampling: 2, vertical_subsampling: 0, packed: false, bit_depth: 8, shift: 0, plane_offset: 2, next_pixel: 1 }),
        None::<Chromaton>,
        None::<Chromaton>,
    ]);
    p
}

/// Predefined frame format for planar 8-bit YUV with 4:1:0 subsampling.
#[allow(non_snake_case)]
pub fn YUV410() -> (r: Pixel)
    ensures
        describes(
            r,
            ColorModel::Trichromatic(TrichromaticEncodingSystem::YUV(YUVSystem::YCbCr(YUVRange::Limited))),
            seq![
                Some(Chromaton { horizontal_subsampling: 0, vertical_subsampling: 0, packed: false, bit_depth: 8, shift: 0, plane_offset: 0, next_pixel: 1 }),
                Some(Chromaton { horizontal_subsampling: 2, vertical_subsampling: 1, packed: false, bit_depth: 8, shift: 0, plane_offset: 1, next_pixel: 1 }),
                Some(Chromaton { horizontal_subsampling: 2, vertical_subsampling: 1, packed: false, bit_depth: 8, shift: 0, plane_offset: 2, next_pixel: 1 }),
                None::<Chromaton>,
                None::<Chromaton>,
            ],
            0,
            false,
            false,
        ),
{
    let p = Pixel::new(ColorModel::Trichromatic(TrichromaticEncodingSystem::YUV(YUVSystem::YCbCr(YUVRange::Limited))))
        .add_first_plane(Chromaton::new(0, 0, false, 8, 0, 0, 1))
        .add_second_plane(Chromaton::yuv8(2, 1, 1))
        .add_third_plane(Chromaton::yuv8(2, 1, 2));
    assert(p.pixel_chroma_info@ =~= seq![
        Some(Chromaton { horizontal_subsampling: 0, vertical_subsampling: 0, packed: false, bit_depth: 8, shift: 0, plane_offset: 0, next_pixel: 1 }),
        Some(Chromaton { horizontal_subsampling: 2, vertical_subsampling: 1, packed: false, bit_depth: 8, shift: 0, plane_offset: 1, next_pixel: 1 }),
        Some(Chromaton { horizontal_subsampling: 2, vertical_subsampling: 1, packed: false, bit_depth: 8, shift: 0, plane_offset: 2, next_pixel: 1 }),
        None::<Chromaton>,
        None::<Chromaton>,
    ]);
    p
}

/// Predefined frame format for planar 10-bit YUV with 4:4:4 subsampling.
#[allow(non_snake_case)]
pub fn YUV444_10() -> (r: Pixel)
    ensures
        describes(
            r,
            ColorModel::Trichromatic(TrichromaticEncodingSystem::YUV(YUVSystem::YCbCr(YUVRange::Limited))),
            seq![
                Some(Chromaton { horizontal_subsampling: 0, vertical_subsampling: 0, packed: false, bit_depth: 10, shift: 0, plane_offset: 0, next_pixel: 1 }),
                Some(Chromaton { horizontal_subsampling: 0, vertical_subsampling: 0, packed: false, bit_depth: 10, shift: 0, plane_offset: 1, next_pixel: 1 }),
                Some(Chromaton { horizontal_subsampling: 0, vertical_subsampling: 0, packed: false, bit_depth: 10, shift: 0, plane_offset: 2, next_pixel: 1 }),
                None::<Chromaton>,
                None::<Chromaton>,
            ],
            0,
            false,
            false,
        ),
{
    let p = Pixel::new(ColorModel::Trichromatic(TrichromaticEncodingSystem::YUV(YUVSystem::YCbCr(YUVRange::Limited))))
        .add_first_plane(Chromaton::new(0, 0, false, 10, 0, 0, 1))
        .add_second_plane(Chromaton::yuvhb(0, 0, 10, 1))
        .add_third_plane(Chromaton::yuvhb(0, 0, 10, 2));
    assert(p.pixel_chroma_info@ =~= seq![
        Some(Chromaton { horizontal_subsampling: 0, vertical_subsampling: 0, packed: false, bit_depth: 10, shift: 0, plane_offset: 0, next_pixel: 1 }),
        Some(Chromaton { horizontal_subsampling: 0, vertical_subsampling: 0, packed: false, bit_depth: 10, shift: 0, plane_offset: 1, next_pixel: 1 }),
        Some(Chromaton { horizontal_subsampling: 0, vertical_subsampling: 0, packed: false, bit_depth: 10, shift: 0, plane_offset: 2, next_pixel: 1 }),
        None::<Chromaton>,
        None::<Chromaton>,
    ]);
    p
}

/// Predefined frame format for planar 10-bit YUV with 4:2:2 subsampling.
#[allow(non_snake_case)]
pub fn YUV422_10() -> (r: Pixel)
    ensures
        describes(
            r,
            ColorModel::Trichromatic(TrichromaticEncodingSystem::YUV(YUVSystem::YCbCr(YUVRange::Limited))),
            seq![
                Some(Chromaton { horizontal_subsampling: 0, vertical_subsampling: 0, packed: false, bit_depth: 10, shift: 0, plane_offset: 0, next_pixel: 1 }),
                Some(Chromaton { horizontal_subsampling: 0, vertical_subsampling: 1, packed: false, bit_depth: 10, shift: 0, plane_offset: 1, next_pixel: 1 }),
                Some(Chromaton { horizontal_subsampling: 0, vertical_subsampling: 1, packed: false, bit_depth: 10, shift: 0, plane_offset: 2, next_pixel: 1 }),
                None::<Chromaton>,
                None::<Chromaton>,
            ],
            0,
            false,
            false,
        ),
{
    let p = Pixel::new(ColorModel::Trichromatic(TrichromaticEncodingSystem::YUV(YUVSystem::YCbCr(YUVRange::Limited))))
        .add_first_plane(Chromaton::new(0, 0, false, 10, 0, 0, 1))
        .add_second_plane(Chromaton::yuvhb(0, 1, 10, 1))
        .add_third_plane(Chromaton::yuvhb(0, 1, 10, 2));
    assert(p.pixel_chroma_info@ =~= seq![
        Some(Chromaton { horizontal_subsampling: 0, vertical_subsampling: 0, packed: false, bit_depth: 10, shift: 0, plane_offset: 0, next_pixel: 1 }),
        Some(Chromaton { horizontal_subsampling: 0, vertical_subsampling: 1, packed: false, bit_depth: 10, shift: 0, plane_offset: 1, next_pixel: 1 }),
        Some(Chromaton { horizontal_subsampling: 0, vertical_subsampling: 1, packed: false, bit_depth: 10, shift: 0, plane_offset: 2, next_pixel: 1 }),
        None::<Chromaton>,
        None::<Chromaton>,
    ]);
    p
}

/// Predefined frame format for planar 10-bit YUV with 4:2:0 subsampling.
#[allow(non_snake_case)]
pub fn YUV420_10() -> (r: Pixel)
    ensures
        describes(
            r,
            ColorModel::Trichromatic(TrichromaticEncodingSystem::YUV(YUVSystem::YCbCr(YUVRange::Limited))),
            seq![
                Some(Chromaton { horizontal_subsampling: 0, vertical_subsampling: 0, packed: false, bit_depth: 10, shift: 0, plane_offset: 0, next_pixel: 1 }),
                Some(Chromaton { horizontal_subsampling: 1, vertical_subsampling: 1, packed: false, bit_depth: 10, shift: 0, plane_offset: 1, next_pixel: 1 }),
                Some(Chromaton { horizontal_subsampling: 1, vertical_subsampling: 1, packed: false, bit_depth: 10, shift: 0, plane_offset: 2, next_pixel: 1 }),
                None::<Chromaton>,
                None::<Chromaton>,
            ],
            0,
            false,
            false,
        ),
{
    let p = Pixel::new(ColorModel::Trichromatic(TrichromaticEncodingSystem::YUV(YUVSystem::YCbCr(YUVRange::Limited))))
        .add_first_plane(Chromaton::new(0, 0, false, 10, 0, 0, 1))
        .add_second_plane(Chromaton::yuvhb(1, 1, 10, 1))
        .add_third_plane(Chromaton::yuvhb(1, 1, 10, 2));
    assert(p.pixel_chroma_info@ =~= seq![
        Some(Chromaton { horizontal_subsampling: 0, vertical_subsampling: 0, packed: false, bit_depth: 10, shift: 0, plane_offset: 0, next_pixel: 1 }),
        Some(Chromaton { horizontal_subsampling: 1, vertical_subsampling: 1, packed: false, bit_depth: 10, shift: 0, plane_offset: 1, next_pixel: 1 }),
        Some(Chromaton { horizontal_subsampling: 1, vertical_subsampling: 1, packed: false, bit_depth: 10, shift: 0, plane_offset: 2, next_pixel: 1 }),
        None::<Chromaton>,
        None::<Chromaton>,
    ]);
    p
}

/// Predefined frame format for planar 10-bit YUV with 4:1:1 subsampling.
#[allow(non_snake_case)]
pub fn YUV411_10() -> (r: Pixel)
    ensures
        describes(
            r,
            ColorModel::Trichromatic(TrichromaticEncodingSystem::YUV(YUVSystem::YCbCr(YUVRange::Limited))),
            seq![
                Some(Chromaton { horizontal_subsampling: 0, vertical_subsampling: 0, packed: false, bit_depth: 10, shift: 0, plane_offset: 0, next_pixel: 1 }),
                Some(Chromaton { horizontal_subsampling: 2, vertical_subsampling: 0, packed: false, bit_depth: 10, shift: 0, plane_offset: 1, next_pixel: 1 }),
                Some(Chromaton { horizontal_subsampling: 2, vertical_subsampling: 0, packed: false, bit_depth: 10, shift: 0, plane_offset: 2, next_pixel: 1 }),
                None::<Chromaton>,
                None::<Chromaton>,
            ],
            0,
            false,
            false,
        ),
{
    let p = Pixel::new(ColorModel::Trichromatic(TrichromaticEncodingSystem::YUV(YUVSystem::YCbCr(YUVRange::Limited))))
        .add_first_plane(Chromaton::new(0, 0, false, 10, 0, 0, 1))
        .add_second_plane(Chromaton::yuvhb(2, 0, 10, 1))
        .add_third_plane(Chromaton::yuvhb(2, 0, 10, 2));
    assert(p.pixel_chroma_info@ =~= seq![
        Some(Chromaton { horizontal_subsampling: 0, vertical_subsampling: 0, packed: false, bit_depth: 10, shift: 0, plane_offset: 0, next_pixel: 1 }),
        Some(Chromaton { horizontal_subsampling: 2, vertical_subsampling: 0, packed: false, bit_depth: 10, shift: 0, plane_offset: 1, next_pixel: 1 }),
        Some(Chromaton { horizontal_subsampling: 2, vertical_subsampling: 0, packed: false, bit_depth: 10, shift: 0, plane_offset: 2, next_pixel: 1 }),
        None::<Chromaton>,
        None::<Chromaton>,
    ]);
    p
}

/// Predefined frame format for planar 10-bit YUV with 4:1:0 subsampling.
#[allow(non_snake_case)]
pub fn YUV410_10() -> (r: Pixel)
    ensures
        describes(
            r,
            ColorModel::Trichromatic(TrichromaticEncodingSystem::YUV(YUVSystem::YCbCr(YUVRange::Limited))),
            seq![
                Some(Chromaton { horizontal_subsampling: 0, vertical_subsampling: 0, packed: false, bit_depth: 10, shift: 0, plane_offset: 0, next_pixel: 1 }),
                Some(Chromaton { horizontal_subsampling: 2, vertical_subsampling: 1, packed: false, bit_depth: 10, shift: 0, plane_offset: 1, next_pixel: 1 }),
                Some(Chromaton { horizontal_subsampling: 2, vertical_subsampling: 1, packed: false, bit_depth: 10, shift: 0, plane_offset: 2, next_pixel: 1 }),
                None::<Chromaton>,
                None::<Chromaton>,
            ],
            0,
            false,
            false,
        ),
{
    let p = Pixel::new(ColorModel::Trichromatic(TrichromaticEncodingSystem::YUV(YUVSystem::YCbCr(YUVRange::Limited))))
        .add_first_plane(Chromaton::new(0, 0, false, 10, 0, 0, 1))
        .add_second_plane(Chromaton::yuvhb(2, 1, 10, 1))
        .add_third_plane(Chromaton::yuvhb(2, 1, 10, 2));
    assert(p.pixel_chroma_info@ =~= seq![
        Some(Chromaton { horizontal_subsampling: 0, vertical_subsampling: 0, packed: false, bit_depth: 10, shift: 0, plane_offset: 0, next_pixel: 1 }),
        Some(Chromaton { horizontal_subsampling: 2, vertical_subsampling: 1, packed: false, bit_depth: 10, shift: 0, plane_offset: 1, next_pixel: 1 }),
        Some(Chromaton { horizontal_subsampling: 2, vertical_subsampling: 1, packed: false, bit_depth: 10, shift: 0, plane_offset: 2, next_pixel: 1 }),
        None::<Chromaton>,
        None::<Chromaton>,
    ]);
    p
}

/// Predefined frame format with RGB24 palette.
#[allow(non_snake_case)]
pub fn PAL8() -> (r: Pixel)
    ensures
        describes(
            r,
            ColorModel::Trichromatic(TrichromaticEncodingSystem::RGB),
            seq![
                Some(Chromaton { horizontal_subsampling: 0, vertical_subsampling: 0, packed: true, bit_depth: 8, shift: 0, plane_offset: 0, next_pixel: 3 }),
                Some(Chromaton { horizontal_subsampling: 0, vertical_subsampling: 0, packed: true, bit_depth: 8, shift: 0, plane_offset: 1, next_pixel: 3 }),
                Some(Chromaton { horizontal_subsampling: 0, vertical_subsampling: 0, packed: true, bit_depth: 8, shift: 0, plane_offset: 2, next_pixel: 3 }),
                None::<Chromaton>,
                None::<Chromaton>,
            ],
            3,
            false,
            true,
        ),
{
    let p = Pixel::new(ColorModel::Trichromatic(TrichromaticEncodingSystem::RGB))
        .add_first_plane(Chromaton::pal8(0))
        .add_second_plane(Chromaton::pal8(1))
        .add_third_plane(Chromaton::pal8(2))
        .size(3)
        .is_paletted();
    assert(p.pixel_chroma_info@ =~= seq![
        Some(Chromaton { horizontal_subsampling: 0, vertical_subsampling: 0, packed: true, bit_depth: 8, shift: 0, plane_offset: 0, next_pixel: 3 }),
        Some(Chromaton { horizontal_subsampling: 0, vertical_subsampling: 0, packed: true, bit_depth: 8, shift: 0, plane_offset: 1, next_pixel: 3 }),
        Some(Chromaton { horizontal_subsampling: 0, vertical_subsampling: 0, packed: true, bit_depth: 8, shift: 0, plane_offset: 2, next_pixel: 3 }),
        None::<Chromaton>,
        None::<Chromaton>,
    ]);
    p
}

/// Predefined frame format for RGB565 packed video.
#[allow(non_snake_case)]
pub fn RGB565() -> (r: Pixel)
    ensures
        describes(
            r,
            ColorModel::Trichromatic(TrichromaticEncodingSystem::RGB),
            seq![
                Some(Chromaton { horizontal_subsampling: 0, vertical_subsampling: 0, packed: true, bit_depth: 5, shift: 11, plane_offset: 0, next_pixel: 2 }),
                Some(Chromaton { horizontal_subsampling: 0, vertical_subsampling: 0, packed: true, bit_depth: 6, shift: 5, plane_offset: 0, next_pixel: 2 }),
                Some(Chromaton { horizontal_subsampling: 0, vertical_subsampling: 0, packed: true, bit_depth: 5, shift: 0, plane_offset: 0, next_pixel: 2 }),
                None::<Chromaton>,
                None::<Chromaton>,
            ],
            2,
            false,
            false,
        ),
{
    let p = Pixel::new(ColorModel::Trichromatic(TrichromaticEncodingSystem::RGB))
        .add_first_plane(Chromaton::packrgb(5, 11, 0, 2))
        .add_second_plane(Chromaton::packrgb(6, 5, 0, 2))
        .add_third_plane(Chromaton::packrgb(5, 0, 0, 2))
        .size(2);
    assert(p.pixel_chroma_info@ =~= seq![
        Some(Chromaton { horizontal_subsampling: 0, vertical_subsampling: 0, packed: true, bit_depth: 5, shift: 11, plane_offset: 0, next_pixel: 2 }),
        Some(Chromaton { horizontal_subsampling: 0, vertical_subsampling: 0, packed: true, bit_depth: 6, shift: 5, plane_offset: 0, next_pixel: 2 }),
        Some(Chromaton { horizontal_subsampling: 0, vertical_subsampling: 0, packed: true, bit_depth: 5, shift: 0, plane_offset: 0, next_pixel: 2 }),
        None::<Chromaton>,
        None::<Chromaton>,
    ]);
    p
}

/// Predefined frame format for RGB24.
#[allow(non_snake_case)]
pub fn RGB24() -> (r: Pixel)
    ensures
        describes(
            r,
            ColorModel::Trichromatic(TrichromaticEncodingSystem::RGB),
            seq![
                Some(Chromaton { horizontal_subsampling: 0, vertical_subsampling: 0, packed: true, bit_depth: 8, shift: 0, plane_offset: 2, next_pixel: 3 }),
                Some(Chromaton { horizontal_subsampling: 0, vertical_subsampling: 0, packed: true, bit_depth: 8, shift: 0, plane_offset: 1, next_pixel: 3 }),
                Some(Chromaton { horizontal_subsampling: 0, vertical_subsampling: 0, packed: true, bit_depth: 8, shift: 0, plane_offset: 0, next_pixel: 3 }),
                None::<Chromaton>,
                None::<Chromaton>,
            ],
            3,
            false,
            false,
        ),
{
    let p = Pixel::new(ColorModel::Trichromatic(TrichromaticEncodingSystem::RGB))
        .add_first_plane(Chromaton::packrgb(8, 0, 2, 3))
        .add_second_plane(Chromaton::packrgb(8, 0, 1, 3))
        .add_third_plane(Chromaton::packrgb(8, 0, 0, 3))
        .size(3);
    assert(p.pixel_chroma_info@ =~= seq![
        Some(Chromaton { horizontal_subsampling: 0, vertical_subsampling: 0, packed: true, bit_depth: 8, shift: 0, plane_offset: 2, next_pixel: 3 }),
        Some(Chromaton { horizontal_subsampling: 0, vertical_subsampling: 0, packed: true, bit_depth: 8, shift: 0, plane_offset: 1, next_pixel: 3 }),
        Some(Chromaton { horizontal_subsampling: 0, vertical_subsampling: 0, packed: true, bit_depth: 8, shift: 0, plane_offset: 0, next_pixel: 3 }),
        None::<Chromaton>,
        None::<Chromaton>,
    ]);
    p
}

/// Predefined frame format for RGBA.
#[allow(non_snake_case)]
pub fn RGBA() -> (r: Pixel)
    ensures
        describes(
            r,
            ColorModel::Trichromatic(TrichromaticEncodingSystem::RGB),
            seq![
                Some(Chromaton { horizontal_subsampling: 0, vertical_subsampling: 0, packed: true, bit_depth: 8, shift: 0, plane_offset: 3, next_pixel: 4 }),
                Some(Chromaton { horizontal_subsampling: 0, vertical_subsampling: 0, packed: true, bit_depth: 8, shift: 0, plane_offset: 2, next_pixel: 4 }),
                Some(Chromaton { horizontal_subsampling: 0, vertical_subsampling: 0, packed: true, bit_depth: 8, shift: 0, plane_offset: 1, next_pixel: 4 }),
                Some(Chromaton { horizontal_subsampling: 0, vertical_subsampling: 0, packed: true, bit_depth: 8, shift: 0, plane_offset: 0, next_pixel: 4 }),
                None::<Chromaton>,
            ],
            4,
            true,
            false,
        ),
{
    let p = Pixel::new(ColorModel::Trichromatic(TrichromaticEncodingSystem::RGB))
        .add_first_plane(Chromaton::packrgb(8, 0, 3, 4))
        .add_second_plane(Chromaton::packrgb(8, 0, 2, 4))
        .add_third_plane(Chromaton::packrgb(8, 0, 1, 4))
        .add_fourth_plane(Chromaton::packrgb(8, 0, 0, 4))
        .size(4)
        .has_alpha_plane();
    assert(p.pixel_chroma_info@ =~= seq![
        Some(Chromaton { horizontal_subsampling: 0, vertical_subsampling: 0, packed: true, bit_depth: 8, shift: 0, plane_offset: 3, next_pixel: 4 }),
        Some(Chromaton { horizontal_subsampling: 0, vertical_subsampling: 0, packed: true, bit_depth: 8, shift: 0, plane_offset: 2, next_pixel: 4 }),
        Some(Chromaton { horizontal_subsampling: 0, vertical_subsampling: 0, packed: true, bit_depth: 8, shift: 0, plane_offset: 1, next_pixel: 4 }),
        Some(Chromaton { horizontal_subsampling: 0, vertical_subsampling: 0, packed: true, bit_depth: 8, shift: 0, plane_offset: 0, next_pixel: 4 }),
        None::<Chromaton>,
    ]);
    p
}

/// Predefined frame format for RGB48.
#[allow(non_snake_case)]
pub fn RGB48() -> (r: Pixel)
    ensures
        describes(
            r,
            ColorModel::Trichromatic(TrichromaticEncodingSystem::RGB),
            seq![
                Some(Chromaton { horizontal_subsampling: 0, vertical_subsampling: 0, packed: true, bit_depth: 16, shift: 0, plane_offset: 2, next_pixel: 6 }),
                Some(Chromaton { horizontal_subsampling: 0, vertical_subsampling: 0, packed: true, bit_depth: 16, shift: 0, plane_offset: 1, next_pixel: 6 }),
                Some(Chromaton { horizontal_subsampling: 0, vertical_subsampling: 0, packed: true, bit_depth: 16, shift: 0, plane_offset: 0, next_pixel: 6 }),
                None::<Chromaton>,
                None::<Chromaton>,
            ],
            6,
            false,
            false,
        ),
{
    let p = Pixel::new(ColorModel::Trichromatic(TrichromaticEncodingSystem::RGB))
        .add_first_plane(Chromaton::packrgb(16, 0, 2, 6))
        .add_second_plane(Chromaton::packrgb(16, 0, 1, 6))
        .add_third_plane(Chromaton::packrgb(16, 0, 0, 6))
        .size(6);
    assert(p.pixel_chroma_info@ =~= seq![
        Some(Chromaton { horizontal_subsampling: 0, vertical_subsampling: 0, packed: true, bit_depth: 16, shift: 0, plane_offset: 2, next_pixel: 6 }),
        Some(Chromaton { horizontal_subsampling: 0, vertical_subsampling: 0, packed: true, bit_depth: 16, shift: 0, plane_offset: 1, next_pixel: 6 }),
        Some(Chromaton { horizontal_subsampling: 0, vertical_subsampling: 0, packed: true, bit_depth: 16, shift: 0, plane_offset: 0, next_pixel: 6 }),
        None::<Chromaton>,
        None::<Chromaton>,
    ]);
    p
}

/// Predefined frame format for RGBA64.
#[allow(non_snake_case)]
pub fn RGBA64() -> (r: Pixel)
    ensures
        describes(
            r,
            ColorModel::Trichromatic(TrichromaticEncodingSystem::RGB),
            seq![
                Some(Chromaton { horizontal_subsampling: 0, vertical_subsampling: 0, packed: true, bit_depth: 16, shift: 0, plane_offset: 3, next_pixel: 8 }),
                Some(Chromaton { horizontal_subsampling: 0, vertical_subsampling: 0, packed: true, bit_depth: 16, shift: 0, plane_offset: 2, next_pixel: 8 }),
                Some(Chromaton { horizontal_subsampling: 0, vertical_subsampling: 0, packed: true, bit_depth: 16, shift: 0, plane_offset: 1, next_pixel: 8 }),
                Some(Chromaton { horizontal_subsampling: 0, vertical_subsampling: 0, packed: true, bit_depth: 16, shift: 0, plane_offset: 0, next_pixel: 8 }),
                None::<Chromaton>,
            ],
            8,
            true,
            false,
        ),
{
    let p = Pixel::new(ColorModel::Trichromatic(TrichromaticEncodingSystem::RGB))
        .add_first_plane(Chromaton::packrgb(16, 0, 3, 8))
        .add_second_plane(Chromaton::packrgb(16, 0, 2, 8))
        .add_third_plane(Chromaton::packrgb(16, 0, 1, 8))
        .add_fourth_plane(Chromaton::packrgb(16, 0, 0, 8))
        .size(8)
        .has_alpha_plane();
    assert(p.pixel_chroma_info@ =~= seq![
        Some(Chromaton { horizontal_subsampling: 0, vertical_subsampling: 0, packed: true, bit_depth: 16, shift: 0, plane_offset: 3, next_pixel: 8 }),
        Some(Chromaton { horizontal_subsampling: 0, vertical_subsampling: 0, packed: true, bit_depth: 16, shift: 0, plane_offset: 2, next_pixel: 8 }),
        Some(Chromaton { horizontal_subsampling: 0, vertical_subsampling: 0, packed: true, bit_depth: 16, shift: 0, plane_offset: 1, next_pixel: 8 }),
        Some(Chromaton { horizontal_subsampling: 0, vertical_subsampling: 0, packed: true, bit_depth: 16, shift: 0, plane_offset: 0, next_pixel: 8 }),
        None::<Chromaton>,
    ]);
    p
}

} // verus!
