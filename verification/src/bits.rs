//! Bit fields of an instruction word and two's-complement sign extension.

use vstd::arithmetic::power2::{lemma2_to64, lemma_pow2_pos, lemma_pow2_unfold, pow2};
use vstd::bits::{
    lemma_u32_low_bits_mask_is_mod, lemma_u32_pow2_no_overflow, lemma_u32_shl_is_mul,
    lemma_u32_shr_is_div,
};
use vstd::prelude::*;

verus! {

/// The number held by the `width` bits of `value` that start at bit `lo`
/// (bit 0 is the least significant one).
pub open spec fn bit_field(value: nat, lo: nat, width: nat) -> nat {
    (value / pow2(lo)) % pow2(width)
}

/// The signed number that a `width`-bit two's-complement field holding
/// `value` stands for: fields with the top bit set stand for
/// `value - 2^width`, the others for `value` itself.
pub open spec fn sign_extend(value: nat, width: nat) -> int {
    if value >= pow2((width - 1) as nat) {
        value - pow2(width)
    } else {
        value as int
    }
}

/// Sign extension is the two's-complement reading of a field: the result
/// lies in `[-2^(width-1), 2^(width-1))`, differs from the field by a
/// multiple of `2^width`, and is negative exactly when the field's top bit
/// is set, in which case it equals `value - 2^width`.
pub proof fn lemma_sign_extend_twos_complement(value: nat, width: nat)
    requires
        1 <= width,
        value < pow2(width),
    ensures
        -pow2((width - 1) as nat) <= sign_extend(value, width) < pow2((width - 1) as nat),
        sign_extend(value, width) == value || sign_extend(value, width) == value - pow2(width),
        bit_field(value, (width - 1) as nat, 1) == 1 <==> sign_extend(value, width) < 0,
        sign_extend(value, width) < 0 ==> sign_extend(value, width) == value - pow2(width),
        sign_extend(value, width) >= 0 ==> sign_extend(value, width) == value,
{
    let half = pow2((width - 1) as nat);
    lemma_pow2_unfold(width);
    lemma_pow2_pos((width - 1) as nat);
    lemma2_to64();
    assert(pow2(width) == 2 * half);
    assert(bit_field(value, (width - 1) as nat, 1) == (value / half) % 2);
    if value >= half {
        assert(value / half == 1) by (nonlinear_arith)
            requires
                half <= value < 2 * half,
                half > 0,
        ;
    } else {
        assert(value / half == 0) by (nonlinear_arith)
            requires
                value < half,
                half > 0,
        ;
    }
}

/// Reads the `width`-bit field of `word` that starts at bit `lo`.
pub fn extract(word: u32, lo: u32, width: u32) -> (field: u32)
    requires
        1 <= width < 32,
        lo + width <= 32,
    ensures
        field == bit_field(word as nat, lo as nat, width as nat),
        field < pow2(width as nat),
{
    proof {
        lemma_u32_shr_is_div(word, lo);
        lemma_u32_pow2_no_overflow(width as nat);
        lemma_u32_shl_is_mul(1u32, width);
        lemma_u32_low_bits_mask_is_mod(word >> lo, width as nat);
        lemma_pow2_pos(width as nat);
    }
    let mask: u32 = (1u32 << width) - 1;
    (word >> lo) & mask
}

/// Widens a `width`-bit two's-complement field to a signed 32-bit number.
pub fn sign_extend_field(value: u32, width: u32) -> (signed: i32)
    requires
        1 <= width < 32,
        value < pow2(width as nat),
    ensures
        signed == sign_extend(value as nat, width as nat),
{
    proof {
        lemma_u32_pow2_no_overflow((width - 1) as nat);
        lemma_u32_pow2_no_overflow(width as nat);
        lemma_u32_shl_is_mul(1u32, (width - 1) as u32);
        lemma_pow2_unfold(width as nat);
    }
    let half: u32 = 1u32 << (width - 1);
    if value >= half {
        let wide: i64 = value as i64 - 2 * (half as i64);
        wide as i32
    } else {
        value as i32
    }
}

} // verus!
