use vstd::prelude::*;

verus! {

/// The approximations, called uniformly on a fixed-width vector of lanes.
///
/// An implementation applies each function lane by lane; `atan2` takes
/// `self` as `y` and its argument as `x`.
pub trait SimdFloatMath: Sized {
    fn exp(self) -> Self;

    fn sin(self) -> Self;

    fn cos(self) -> Self;

    fn tan(self) -> Self;

    fn atan(self) -> Self;

    fn atan2(self, x: Self) -> Self;

    fn ln(self) -> Self;
}

} // verus!
