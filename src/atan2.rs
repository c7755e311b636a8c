use crate::binary64::{is_nan, is_negative, is_positive, is_zero, sign_bit, split_fields};
use vstd::prelude::*;

verus! {

/// How the two-argument arctangent `atan2(y, x)` is formed.
#[derive(Clone, Copy, Debug, PartialEq, Eq, Structural)]
pub enum Atan2Branch {
    /// `atan(y / x)` as it is (`x > 0`).
    Direct,
    /// `atan(y / x) + π` (`x` not positive, `y` with a positive sign).
    PlusPi,
    /// `atan(y / x) - π` (`x` not positive, `y` with a negative sign).
    MinusPi,
    /// `π/2` (`x = 0`, `y > 0`).
    HalfPi,
    /// `-π/2` (`x = 0`, `y < 0`).
    MinusHalfPi,
    /// NaN (`x = 0` and `y` zero or NaN).
    Undefined,
}

/// The branch owed to the bit patterns of `y` and `x`.
///
/// A nonzero `x` (a NaN included) goes through `atan(y / x)`, corrected by
/// `±π` into the half-plane of `y`'s sign unless `x > 0`; a zero `x` gives
/// `±π/2` by the sign of `y`, and NaN when `y` is zero or NaN.
pub open spec fn atan2_branch_of(y: u64, x: u64) -> Atan2Branch {
    if !is_zero(x) {
        if is_positive(x) {
            Atan2Branch::Direct
        } else if !sign_bit(y) {
            Atan2Branch::PlusPi
        } else {
            Atan2Branch::MinusPi
        }
    } else if is_positive(y) {
        Atan2Branch::HalfPi
    } else if is_negative(y) {
        Atan2Branch::MinusHalfPi
    } else {
        Atan2Branch::Undefined
    }
}

/// Picks the branch of `atan2(y, x)` from the bits of `y` and `x`.
pub fn atan2_branch(y_bits: u64, x_bits: u64) -> (r: Atan2Branch)
    ensures
        r == atan2_branch_of(y_bits, x_bits),
{
    let (y_neg, y_exp, y_man) = split_fields(y_bits);
    let (x_neg, x_exp, x_man) = split_fields(x_bits);
    let x_zero: bool = x_exp == 0 && x_man == 0;
    let x_nan: bool = x_exp == 2047 && x_man != 0;
    let y_zero: bool = y_exp == 0 && y_man == 0;
    let y_nan: bool = y_exp == 2047 && y_man != 0;
    if !x_zero {
        if !x_neg && !x_nan {
            Atan2Branch::Direct
        } else if !y_neg {
            Atan2Branch::PlusPi
        } else {
            Atan2Branch::MinusPi
        }
    } else if y_zero || y_nan {
        Atan2Branch::Undefined
    } else if !y_neg {
        Atan2Branch::HalfPi
    } else {
        Atan2Branch::MinusHalfPi
    }
}

} // verus!
