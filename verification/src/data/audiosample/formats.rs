//! A set of default constant channels for general use.
use vstd::prelude::*;
use crate::data::audiosample::Soniton;

verus! {

/// Predefined format for interleaved 8-bit unsigned audio.
#[allow(non_snake_case)]
pub fn U8() -> (r: Soniton)
    ensures
        r == (Soniton { bits: 8, be: false, packed: false, planar: false, float: false, signed: false }),
{
    Soniton { bits: 8, be: false, packed: false, planar: false, float: false, signed: false }
}

/// Predefined format for interleaved 16-bit signed audio.
#[allow(non_snake_case)]
pub fn S16() -> (r: Soniton)
    ensures
        r == (Soniton { bits: 16, be: false, packed: false, planar: false, float: false, signed: true }),
{
    Soniton { bits: 16, be: false, packed: false, planar: false, float: false, signed: true }
}

/// Predefined format for interleaved 32-bit signed audio.
#[allow(non_snake_case)]
pub fn S32() -> (r: Soniton)
    ensures
        r == (Soniton { bits: 32, be: false, packed: false, planar: false, float: false, signed: true }),
{
    Soniton { bits: 32, be: false, packed: false, planar: false, float: false, signed: true }
}

/// Predefined format for interleaved floating points 32-bit signed audio.
#[allow(non_snake_case)]
pub fn F32() -> (r: Soniton)
    ensures
        r == (Soniton { bits: 32, be: false, packed: false, planar: false, float: true, signed: true }),
{
    Soniton { bits: 32, be: false, packed: false, planar: false, float: true, signed: true }
}

/// Predefined format for interleaved floating points 64-bit signed audio.
#[allow(non_snake_case)]
pub fn F64() -> (r: Soniton)
    ensures
        r == (Soniton { bits: 64, be: false, packed: false, planar: false, float: true, signed: true }),
{
    Soniton { bits: 64, be: false, packed: false, planar: false, float: true, signed: true }
}

} // verus!
