//! Bitfield extraction and sign extension.
use vstd::prelude::*;
use vstd::arithmetic::power2::pow2;

verus! {

/// Value of the `width`-bit field of `val` that starts at bit `lsb`:
/// `floor(val / 2^lsb) mod 2^width`, and 0 where the field is empty.
pub open spec fn field_value(val: u32, lsb: u32, width: u32) -> nat {
    if lsb >= 32 || width == 0 {
        0
    } else {
        (val as nat / pow2(lsb as nat)) % pow2(width as nat)
    }
}

/// Extracts a contiguous range of `width` bits starting at bit position `lsb` from a 32-bit word.
///
/// Returns `0` if `width == 0` or `lsb >= 32`.
pub fn extract_bits(val: u32, lsb: u32, width: u32) -> (r: u32)
    ensures
        r as nat == field_value(val, lsb, width),
{
    if lsb >= 32 || width == 0 {
        return 0;
    }
    let shifted = val >> lsb;
    proof {
        vstd::bits::lemma_u32_shr_is_div(val, lsb);
    }
    if width >= 32 {
        proof {
            vstd::arithmetic::power2::lemma2_to64();
            if width > 32 {
                vstd::arithmetic::power2::lemma_pow2_strictly_increases(32, width as nat);
            }
            vstd::arithmetic::div_mod::lemma_small_mod(shifted as nat, pow2(width as nat));
        }
        shifted
    } else {
        proof {
            vstd::bits::lemma_u32_pow2_no_overflow(width as nat);
            vstd::bits::lemma_u32_shl_is_mul(1, width);
            vstd::bits::lemma_u32_low_bits_mask_is_mod(shifted, width as nat);
        }
        let mask = (1u32 << width) - 1;
        shifted & mask
    }
}

/// Two's-complement reading of the low `bit_width` bits of `val`, as a 64-bit word:
/// the low field itself when its top bit is clear, else the field minus `2^bit_width`
/// taken modulo `2^64`. Widths of 0 and of 64 or more leave `val` as it is.
pub open spec fn sign_extended(val: u64, bit_width: u32) -> u64 {
    if bit_width == 0 || bit_width >= 64 {
        val
    } else {
        let low = val as nat % pow2(bit_width as nat);
        if low < pow2((bit_width - 1) as nat) {
            low as u64
        } else {
            (low + 0x1_0000_0000_0000_0000 - pow2(bit_width as nat)) as u64
        }
    }
}

proof fn lemma_sign_bit(val: u64, w: u64, top: u64, mask: u64)
    by (bit_vector)
    requires
        0 < w < 64,
        top + 1 == w,
        mask + 1 == 1u64 << w,
    ensures
        ((val >> top) & 1 == 1) == ((val & mask) >= (1u64 << top)),
        (val | !mask) == (val & mask) + (0xffff_ffff_ffff_ffffu64 - mask),
{
}

/// Sign-extends a `bit_width`-bit signed integer value contained in `val` to a 64-bit unsigned integer representation.
///
/// Returns `val` as-is if `bit_width == 0` or `bit_width >= 64`.
pub fn sign_extend(val: u64, bit_width: u32) -> (r: u64)
    ensures
        r == sign_extended(val, bit_width),
{
    if bit_width == 0 || bit_width >= 64 {
        return val;
    }
    let w = bit_width as u64;
    let top = w - 1;
    proof {
        vstd::bits::lemma_u64_pow2_no_overflow(w as nat);
        vstd::bits::lemma_u64_pow2_no_overflow(top as nat);
        vstd::bits::lemma_u64_shl_is_mul(1, w);
        vstd::bits::lemma_u64_shl_is_mul(1, top);
    }
    let mask = (1u64 << w) - 1;
    proof {
        vstd::bits::lemma_u64_low_bits_mask_is_mod(val, w as nat);
        lemma_sign_bit(val, w, top, mask);
    }
    if (val >> top) & 1 == 1 {
        val | !mask
    } else {
        val & mask
    }
}

/// Reading a word whose top bit is set as a signed 64-bit integer subtracts 2^64.
pub proof fn lemma_i64_of_high(v: u64)
    requires
        v >= 0x8000_0000_0000_0000,
    ensures
        (v as i64) as int == v - 0x1_0000_0000_0000_0000,
{
    assert((v as i64) as int == v - 0x1_0000_0000_0000_0000) by (bit_vector)
        requires
            v >= 0x8000_0000_0000_0000,
    ;
}

/// A field of 32 or more bits starting at bit 0 is the whole word.
pub proof fn lemma_whole_word_field(val: u32, width: u32)
    requires
        width >= 32,
    ensures
        field_value(val, 0, width) == val,
{
    vstd::arithmetic::power2::lemma2_to64();
    if width > 32 {
        vstd::arithmetic::power2::lemma_pow2_strictly_increases(32, width as nat);
    }
    vstd::arithmetic::div_mod::lemma_small_mod(val as nat, pow2(width as nat));
}

/// For `0 < w < 64`, the sign-extended word, read as a signed 64-bit integer, is the
/// unique value in `[-2^(w-1), 2^(w-1))` that agrees with `val` modulo `2^w`; and
/// sign-extending it again changes nothing.
pub proof fn lemma_sign_extend_is_signed_value(val: u64, w: u32)
    requires
        0 < w < 64,
    ensures
        -pow2((w - 1) as nat) <= ((sign_extended(val, w) as i64) as int) < pow2((w - 1) as nat),
        ((sign_extended(val, w) as i64) as int - val) % (pow2(w as nat) as int) == 0,
        sign_extended(sign_extended(val, w), w) == sign_extended(val, w),
{
    let p = pow2(w as nat) as int;
    let h = pow2((w - 1) as nat) as int;
    let m = 0x1_0000_0000_0000_0000int;
    vstd::arithmetic::power2::lemma_pow2_unfold(w as nat);
    vstd::bits::lemma_u64_pow2_no_overflow(w as nat);
    vstd::arithmetic::power2::lemma_pow2_adds(w as nat, (64 - w) as nat);
    vstd::arithmetic::power2::lemma2_to64();
    vstd::arithmetic::power2::lemma_pow2_pos((64 - w) as nat);
    assert(pow2(64) == m);
    let k = pow2((64 - w) as nat) as int;
    assert(p * k == m);
    let low = val as int % p;
    let q = val as int / p;
    let r = sign_extended(val, w);
    vstd::arithmetic::div_mod::lemma_fundamental_div_mod(val as int, p);
    vstd::arithmetic::power2::lemma_pow2_strictly_increases(0, (64 - w) as nat);
    vstd::arithmetic::power2::lemma_pow2_pos(w as nat);
    if low < h {
        assert(r as int == low);
        assert(r < 0x8000_0000_0000_0000);
        assert((r as i64) as int == r as int) by (bit_vector)
            requires
                r < 0x8000_0000_0000_0000,
        ;
        assert(low - val == (-q) * p) by (nonlinear_arith)
            requires
                val == p * q + low,
        ;
        vstd::arithmetic::div_mod::lemma_mod_multiples_basic(-q, p);
        vstd::arithmetic::div_mod::lemma_small_mod(low as nat, p as nat);
    } else {
        assert(r as int == low + m - p);
        assert(p <= m / 2) by (nonlinear_arith)
            requires
                p * k == m,
                k >= 2,
                p > 0,
        ;
        lemma_i64_of_high(r);
        assert((r as i64) as int == low - p);
        assert(low - p - val == (-q - 1) * p) by (nonlinear_arith)
            requires
                val == p * q + low,
        ;
        vstd::arithmetic::div_mod::lemma_mod_multiples_basic(-q - 1, p);
        assert(low + m - p == p * (k - 1) + low) by (nonlinear_arith)
            requires
                p * k == m,
        ;
        vstd::arithmetic::div_mod::lemma_mod_multiples_vanish(k - 1, low, p);
        vstd::arithmetic::div_mod::lemma_small_mod(low as nat, p as nat);
    }
}

} // verus!
