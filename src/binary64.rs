use vstd::arithmetic::div_mod::lemma_basic_div;
use vstd::arithmetic::power2::{
    lemma2_to64, lemma2_to64_rest, lemma_pow2_pos, lemma_pow2_strictly_increases, pow2,
};
use vstd::bits::lemma_u64_shr_is_div;
use vstd::prelude::*;

verus! {

/// Number of stored mantissa bits in a binary64 value.
pub const MANTISSA_BITS: u64 = 52;

/// Bias of the binary64 exponent field.
pub const EXPONENT_BIAS: u64 = 1023;

/// Mask of the exponent field, bits 52 to 62.
pub const EXPONENT_MASK: u64 = 0x7ff0_0000_0000_0000;

/// Mask of the stored mantissa bits.
pub const MANTISSA_MASK: u64 = 0x000f_ffff_ffff_ffff;

/// The sign bit of a bit pattern: `true` for a negative sign.
pub open spec fn sign_bit(b: u64) -> bool {
    b >> 63 == 1
}

/// The biased exponent field of a bit pattern, in `0..=2047`.
pub open spec fn exponent_field(b: u64) -> nat {
    ((b >> 52) & 0x7ff) as nat
}

/// The stored mantissa field of a bit pattern, in `0..2^52`.
pub open spec fn mantissa_field(b: u64) -> nat {
    (b & 0x000f_ffff_ffff_ffff) as nat
}

/// The exponent field with its bias removed.
pub open spec fn unbiased_exponent(b: u64) -> int {
    exponent_field(b) - 1023
}

/// Estimate of `floor(log2 |x|)` read from the exponent field of `x`'s bits.
///
/// Exact for normal numbers; a zero or subnormal gives `-1023`, an infinity
/// or NaN gives `1024`.
pub fn fake_log2(bits: u64) -> (r: i32)
    ensures
        r == unbiased_exponent(bits),
        -1023 <= r <= 1024,
{
    let field: u64 = (bits & EXPONENT_MASK) >> MANTISSA_BITS;
    assert(field == (bits >> 52) & 0x7ff && field <= 2047) by (bit_vector)
        requires
            field == (bits & 0x7ff0_0000_0000_0000u64) >> 52u64,
    ;
    (field as i32) - (EXPONENT_BIAS as i32)
}

/// Whether a bit pattern encodes a finite value (neither an infinity nor NaN).
pub open spec fn is_finite(b: u64) -> bool {
    exponent_field(b) != 2047
}

/// Whether a bit pattern encodes a NaN.
pub open spec fn is_nan(b: u64) -> bool {
    exponent_field(b) == 2047 && mantissa_field(b) != 0
}

/// Whether a bit pattern encodes `+0` or `-0`.
pub open spec fn is_zero(b: u64) -> bool {
    exponent_field(b) == 0 && mantissa_field(b) == 0
}

/// Whether the value compares greater than zero.
pub open spec fn is_positive(b: u64) -> bool {
    !sign_bit(b) && !is_zero(b) && !is_nan(b)
}

/// Whether the value compares less than zero.
pub open spec fn is_negative(b: u64) -> bool {
    sign_bit(b) && !is_zero(b) && !is_nan(b)
}

/// The sign bit, exponent field and mantissa field of a bit pattern.
pub fn split_fields(bits: u64) -> (r: (bool, u64, u64))
    ensures
        r.0 == sign_bit(bits),
        r.1 == exponent_field(bits),
        r.2 == mantissa_field(bits),
{
    let e: u64 = (bits & EXPONENT_MASK) >> MANTISSA_BITS;
    assert(e == (bits >> 52) & 0x7ff) by (bit_vector)
        requires
            e == (bits & 0x7ff0_0000_0000_0000u64) >> 52u64,
    ;
    ((bits >> 63u64) == 1, e, bits & MANTISSA_MASK)
}

/// The integer significand: the mantissa field, with the implicit leading bit
/// for a normal number.
pub open spec fn significand(b: u64) -> nat {
    if exponent_field(b) == 0 {
        mantissa_field(b)
    } else {
        pow2(52) + mantissa_field(b)
    }
}

/// `|x|` rounded toward zero, for a finite `x`.
///
/// A finite `x` is `significand · 2^(e - 1075)` in magnitude, where `e` is the
/// exponent field (taken as `1` for a zero or subnormal).
pub open spec fn trunc_magnitude(b: u64) -> nat {
    let e = exponent_field(b);
    if e >= 1075 {
        significand(b) * pow2((e - 1075) as nat)
    } else if e == 0 {
        significand(b) / pow2(1074)
    } else {
        significand(b) / pow2((1075 - e) as nat)
    }
}

/// A finite `x` rounded toward zero.
pub open spec fn trunc_value(b: u64) -> int {
    if sign_bit(b) {
        -trunc_magnitude(b)
    } else {
        trunc_magnitude(b) as int
    }
}

/// Whether `x`, rounded toward zero, is an `i32`.
pub open spec fn trunc_fits_i32(b: u64) -> bool {
    is_finite(b) && i32::MIN <= trunc_value(b) <= i32::MAX
}

/// Rounds the value whose bits are `bits` toward zero and returns it as an
/// `i32`; `None` for an infinity, a NaN, or a value out of the `i32` range.
pub fn checked_trunc_i32(bits: u64) -> (r: Option<i32>)
    ensures
        r is Some <==> trunc_fits_i32(bits),
        r matches Some(n) ==> n == trunc_value(bits),
{
    let e: u64 = (bits & EXPONENT_MASK) >> MANTISSA_BITS;
    let m: u64 = bits & MANTISSA_MASK;
    let negative: bool = (bits >> 63u64) == 1;
    assert(e == (bits >> 52) & 0x7ff && e <= 2047) by (bit_vector)
        requires
            e == (bits & 0x7ff0_0000_0000_0000u64) >> 52u64,
    ;
    assert(m < 0x10_0000_0000_0000) by (bit_vector)
        requires
            m == bits & 0x000f_ffff_ffff_ffffu64,
    ;
    proof {
        lemma2_to64();
        lemma2_to64_rest();
        assert(exponent_field(bits) == e);
        assert(mantissa_field(bits) == m);
        assert(significand(bits) < pow2(53));
    }
    if e == 2047 {
        return None;
    }
    if e < 1023 {
        proof {
            let d: nat = if e == 0 {
                1074
            } else {
                (1075 - e) as nat
            };
            if d > 53 {
                lemma_pow2_strictly_increases(53, d);
            }
            lemma_basic_div(significand(bits) as int, pow2(d) as int);
        }
        return Some(0);
    }
    if e >= 1075 {
        proof {
            lemma_pow2_pos((e - 1075) as nat);
            let s = significand(bits);
            let p = pow2((e - 1075) as nat);
            assert(s >= pow2(52));
            assert(s * p >= s) by (nonlinear_arith)
                requires
                    p >= 1,
            ;
        }
        return None;
    }
    let sig: u64 = m | 0x0010_0000_0000_0000u64;
    assert(sig == m + 0x10_0000_0000_0000) by (bit_vector)
        requires
            sig == m | 0x0010_0000_0000_0000u64,
            m < 0x10_0000_0000_0000,
    ;
    let shift: u64 = 1075 - e;
    let mag: u64 = sig >> shift;
    proof {
        lemma_u64_shr_is_div(sig, shift);
    }
    if negative {
        if mag <= 0x8000_0000 {
            Some((0i64 - mag as i64) as i32)
        } else {
            None
        }
    } else {
        if mag <= 0x7fff_ffff {
            Some(mag as i32)
        } else {
            None
        }
    }
}

} // verus!
