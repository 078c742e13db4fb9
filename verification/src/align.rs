//! Size arithmetic shared by the audio and pixel formats.
use vstd::prelude::*;
use vstd::arithmetic::power2::pow2;

verus! {

/// `(v + a - 1) & !(a - 1)`: rounds `v` up to a multiple of `a` when `a` is a
/// power of two.
pub open spec fn align_spec(v: usize, a: usize) -> usize {
    ((v + a - 1) as usize) & !((a - 1) as usize)
}

/// `a` is a power of two.
pub open spec fn is_power_of_two(a: int) -> bool {
    exists|k: nat| pow2(k) == a
}

/// The least multiple of `a` that is not below `v`.
pub open spec fn round_up(v: int, a: int) -> int {
    ((v + a - 1) / a) * a
}

/// Aligns a value to a specific number of bytes.
pub fn align(v: usize, a: usize) -> (r: usize)
    requires
        a >= 1,
        v + a <= usize::MAX,
    ensures
        r == align_spec(v, a),
        is_power_of_two(a as int) ==> r == round_up(v as int, a as int),
{
    let r = (v + a - 1) & !(a - 1);
    proof {
        if is_power_of_two(a as int) {
            lemma_align_pow2(v, a);
        }
    }
    r
}

/// For a power of two `a`, masking the low bits rounds up to a multiple of
/// `a`.
pub proof fn lemma_align_pow2(v: usize, a: usize)
    requires
        a >= 1,
        v + a <= usize::MAX,
        is_power_of_two(a as int),
    ensures
        align_spec(v, a) == round_up(v as int, a as int),
{
    let k: nat = choose|k: nat| pow2(k) == a as int;
    assert(pow2(k) == a);
    assert(k < usize::BITS) by {
        vstd::arithmetic::power2::lemma2_to64();
        if k > usize::BITS {
            vstd::arithmetic::power2::lemma_pow2_strictly_increases(usize::BITS as nat, k);
        }
    }
    let x = (v + a - 1) as usize;
    let k64 = k as usize;
    vstd::bits::lemma_usize_pow2_no_overflow(k);
    vstd::bits::lemma_usize_shl_is_mul(1usize, k64);
    assert(x & !(((1usize << k64) - 1usize) as usize) == (x >> k64) << k64) by (bit_vector)
        requires
            k64 < usize::BITS,
    ;
    vstd::bits::lemma_usize_shr_is_div(x, k64);
    let q = x >> k64;
    vstd::arithmetic::power2::lemma_pow2_pos(k);
    vstd::arithmetic::div_mod::lemma_fundamental_div_mod(x as int, a as int);
    vstd::arithmetic::mul::lemma_mul_is_commutative(a as int, (x / a) as int);
    vstd::arithmetic::div_mod::lemma_remainder_lower(x as int, a as int);
    assert(q * a <= x);
    vstd::bits::lemma_usize_shl_is_mul(q, k64);
}

/// Returns the number of bytes necessary to represent the number of bits
/// passed as input.
pub fn round_to_byte(v: usize) -> (r: usize)
    requires
        v + 7 <= usize::MAX,
    ensures
        r == (v + 7) / 8,
{
    let x = v + 7;
    assert(x >> 3 == x / 8) by (bit_vector);
    x >> 3
}

} // verus!
