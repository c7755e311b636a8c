//! Integer and bit-level core of a library of fast transcendental-function
//! approximations over IEEE-754 binary64 values.
//!
//! The floating-point kernels (polynomials and range reconstruction) run
//! around this core; what is decided here is stated and proved: reading the
//! fields of a binary64 bit pattern, checked conversion of a quotient to an
//! integer period count, the quadrant flags of the sine/cosine reduction, the
//! half-plane choice of the two-argument arctangent, the binary digits that
//! drive power by squaring, and the lane-parallel forms of each.
mod atan2;
mod binary64;
mod lanes;
mod log;
mod power;
mod quadrant;
mod vector_math;

pub use atan2::{atan2_branch, atan2_branch_of, Atan2Branch};
pub use binary64::{
    checked_trunc_i32, exponent_field, fake_log2, is_finite, is_nan, is_negative, is_positive,
    is_zero, mantissa_field, sign_bit, significand, split_fields, trunc_fits_i32, trunc_magnitude,
    trunc_value, unbiased_exponent, EXPONENT_BIAS, EXPONENT_MASK, MANTISSA_BITS, MANTISSA_MASK,
};
pub use lanes::{
    atan2_branch_lanes, checked_trunc_i32_lanes, fake_log2_lanes, ln_scale_exponent_lanes,
    power_digit, power_plan_lanes, select, sin_quadrant_lanes, Mask, PowerMasks, QuadrantMasks,
};
pub use log::{ln_scale_exponent, ln_scale_of};
pub use power::{
    binary_digits, digits_value, lemma_digits_value, lemma_negated_exponent, lemma_zero_exponent,
    magnitude, power_plan, PowerPlan,
};
pub use quadrant::{quadrant_of, sin_quadrant, Quadrant};
pub use vector_math::SimdFloatMath;
