//! Reading bit fields of words.
use vstd::prelude::*;

verus! {

/// The bits `lo..lo + width` of `v`.
pub open spec fn bits_of(v: u32, lo: u32, width: u32) -> u32 {
    (v / pow2_u32(lo)) % pow2_u32(width)
}

/// `2^n` for `n` below 32.
pub open spec fn pow2_u32(n: u32) -> u32 {
    vstd::arithmetic::power2::pow2(n as nat) as u32
}

/// Reads the bits `lo..lo + width` of `v`.
pub fn field(v: u32, lo: u32, width: u32) -> (r: u32)
    requires
        lo < 32,
        1 <= width <= 31,
        lo + width <= 32,
    ensures
        r == bits_of(v, lo, width),
        r < pow2_u32(width),
{
    proof {
        vstd::arithmetic::power2::lemma2_to64();
        vstd::bits::lemma_u32_shr_is_div(v, lo);
        vstd::bits::lemma_u32_pow2_no_overflow(lo as nat);
        vstd::bits::lemma_u32_pow2_no_overflow(width as nat);
        vstd::bits::lemma_u32_shl_is_mul(1, width);
        vstd::arithmetic::power2::lemma_pow2_pos(width as nat);
    }
    let shifted = v >> lo;
    let modulus = 1u32 << width;
    shifted % modulus
}

/// Proof that a word masked to its low ten or nine bits is at most the mask.
pub proof fn lemma_masked_bounds(x: u32)
    ensures
        x & 0x3FF <= 0x3FF,
        x & 0x1FF <= 0x1FF,
{
    assert(x & 0x3FF <= 0x3FF && x & 0x1FF <= 0x1FF) by (bit_vector);
}

/// `v` with its bits `lo..lo + width` replaced by `x`.
pub open spec fn with_bits(v: u32, lo: u32, width: u32, x: u32) -> u32 {
    (v & !((((1u32 << width) - 1) as u32) << lo)) | (x << lo)
}

/// Replaces the bits `lo..lo + width` of `v` by `x`.
pub fn set_field(v: u32, lo: u32, width: u32, x: u32) -> (r: u32)
    requires
        lo < 32,
        1 <= width <= 31,
        lo + width <= 32,
    ensures
        r == with_bits(v, lo, width, x),
{
    assert(1u32 << width >= 1) by (bit_vector)
        requires
            1 <= width <= 31,
    ;
    let ones: u32 = (1u32 << width) - 1;
    (v & !(ones << lo)) | (x << lo)
}

} // verus!
