use crate::binary64::{fake_log2, unbiased_exponent};
use vstd::prelude::*;

verus! {

/// The power of two `n` that the natural logarithm divides out of `x` before
/// folding: the exponent estimate of `x`, raised by one when it is negative.
pub open spec fn ln_scale_of(b: u64) -> int {
    let n = unbiased_exponent(b);
    if n < 0 {
        n + 1
    } else {
        n
    }
}

/// The exponent `n` for which the natural logarithm evaluates
/// `ln(x · 2^-n) + n · ln 2`, read from the bits of `x`.
pub fn ln_scale_exponent(bits: u64) -> (r: i32)
    ensures
        r == ln_scale_of(bits),
        -1022 <= r <= 1024,
{
    let n: i32 = fake_log2(bits);
    if n < 0 {
        n + 1
    } else {
        n
    }
}

} // verus!
