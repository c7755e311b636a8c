use crate::atan2::{atan2_branch, atan2_branch_of, Atan2Branch};
use crate::binary64::{
    checked_trunc_i32, fake_log2, trunc_fits_i32, trunc_value, unbiased_exponent,
};
use crate::log::{ln_scale_exponent, ln_scale_of};
use crate::power::{binary_digits, magnitude, power_plan, PowerPlan};
use crate::quadrant::{quadrant_of, sin_quadrant};
use vstd::prelude::*;

verus! {

/// One boolean per lane: the condition that a lane-parallel computation
/// selects on in place of a branch.
#[derive(Clone, Copy, Debug)]
pub struct Mask<const N: usize> {
    pub lanes: [bool; N],
}

/// Per lane, the value of `a` where the mask is set and of `b` elsewhere.
pub fn select<T: Copy, const N: usize>(mask: &Mask<N>, a: &[T; N], b: &[T; N]) -> (r: [T; N])
    ensures
        forall|i: int|
            0 <= i < N ==> #[trigger] r@[i] == if mask.lanes@[i] {
                a@[i]
            } else {
                b@[i]
            },
{
    let mut r: [T; N] = *b;
    let mut i: usize = 0;
    while i < N
        invariant
            i <= N,
            forall|j: int|
                0 <= j < i ==> #[trigger] r@[j] == if mask.lanes@[j] {
                    a@[j]
                } else {
                    b@[j]
                },
            forall|j: int| i <= j < N ==> #[trigger] r@[j] == b@[j],
        decreases N - i,
    {
        if mask.lanes[i] {
            r[i] = a[i];
        }
        i = i + 1;
    }
    r
}

/// `fake_log2` on every lane.
pub fn fake_log2_lanes<const N: usize>(bits: &[u64; N]) -> (r: [i32; N])
    ensures
        forall|i: int| 0 <= i < N ==> #[trigger] r@[i] == unbiased_exponent(bits@[i]),
{
    let mut r: [i32; N] = [0i32; N];
    let mut i: usize = 0;
    while i < N
        invariant
            i <= N,
            forall|j: int| 0 <= j < i ==> #[trigger] r@[j] == unbiased_exponent(bits@[j]),
        decreases N - i,
    {
        r[i] = fake_log2(bits[i]);
        i = i + 1;
    }
    r
}

/// `ln_scale_exponent` on every lane.
pub fn ln_scale_exponent_lanes<const N: usize>(bits: &[u64; N]) -> (r: [i32; N])
    ensures
        forall|i: int| 0 <= i < N ==> #[trigger] r@[i] == ln_scale_of(bits@[i]),
{
    let mut r: [i32; N] = [0i32; N];
    let mut i: usize = 0;
    while i < N
        invariant
            i <= N,
            forall|j: int| 0 <= j < i ==> #[trigger] r@[j] == ln_scale_of(bits@[j]),
        decreases N - i,
    {
        r[i] = ln_scale_exponent(bits[i]);
        i = i + 1;
    }
    r
}

/// `checked_trunc_i32` on every lane.
pub fn checked_trunc_i32_lanes<const N: usize>(bits: &[u64; N]) -> (r: [Option<i32>; N])
    ensures
        forall|i: int|
            0 <= i < N ==> (#[trigger] r@[i] is Some <==> trunc_fits_i32(bits@[i])),
        forall|i: int|
            0 <= i < N ==> (#[trigger] r@[i] matches Some(n) ==> n == trunc_value(bits@[i])),
{
    let mut r: [Option<i32>; N] = [None; N];
    let mut i: usize = 0;
    while i < N
        invariant
            i <= N,
            forall|j: int|
                0 <= j < i ==> (#[trigger] r@[j] is Some <==> trunc_fits_i32(bits@[j])),
            forall|j: int|
                0 <= j < i ==> (#[trigger] r@[j] matches Some(n) ==> n == trunc_value(bits@[j])),
        decreases N - i,
    {
        r[i] = checked_trunc_i32(bits[i]);
        i = i + 1;
    }
    r
}

/// The two masks of the sine/cosine reduction: the lanes whose reduced
/// argument is reflected, and the lanes whose result is negated.
#[derive(Clone, Copy, Debug)]
pub struct QuadrantMasks<const N: usize> {
    pub reflect: Mask<N>,
    pub negate: Mask<N>,
}

/// `sin_quadrant` on every lane, as two masks.
pub fn sin_quadrant_lanes<const N: usize>(n: &[i32; N]) -> (r: QuadrantMasks<N>)
    ensures
        forall|i: int|
            0 <= i < N ==> #[trigger] r.reflect.lanes@[i] == quadrant_of(n@[i] as int).reflect,
        forall|i: int|
            0 <= i < N ==> #[trigger] r.negate.lanes@[i] == quadrant_of(n@[i] as int).negate,
{
    let mut reflect: [bool; N] = [false; N];
    let mut negate: [bool; N] = [false; N];
    let mut i: usize = 0;
    while i < N
        invariant
            i <= N,
            forall|j: int|
                0 <= j < i ==> #[trigger] reflect@[j] == quadrant_of(n@[j] as int).reflect,
            forall|j: int|
                0 <= j < i ==> #[trigger] negate@[j] == quadrant_of(n@[j] as int).negate,
        decreases N - i,
    {
        let q = sin_quadrant(n[i]);
        reflect[i] = q.reflect;
        negate[i] = q.negate;
        i = i + 1;
    }
    QuadrantMasks { reflect: Mask { lanes: reflect }, negate: Mask { lanes: negate } }
}

/// `atan2_branch` on every pair of lanes.
pub fn atan2_branch_lanes<const N: usize>(
    y_bits: &[u64; N],
    x_bits: &[u64; N],
) -> (r: [Atan2Branch; N])
    ensures
        forall|i: int|
            0 <= i < N ==> #[trigger] r@[i] == atan2_branch_of(y_bits@[i], x_bits@[i]),
{
    let mut r: [Atan2Branch; N] = [Atan2Branch::Undefined; N];
    let mut i: usize = 0;
    while i < N
        invariant
            i <= N,
            forall|j: int|
                0 <= j < i ==> #[trigger] r@[j] == atan2_branch_of(y_bits@[j], x_bits@[j]),
        decreases N - i,
    {
        r[i] = atan2_branch(y_bits[i], x_bits[i]);
        i = i + 1;
    }
    r
}

/// Digit `k` of the squaring schedule of `x^n`; unset past its last digit.
pub open spec fn power_digit(n: int, k: int) -> bool {
    let d = binary_digits(magnitude(n));
    0 <= k < d.len() && d[k]
}

/// The lane-parallel squaring schedule of `x^n`: the lanes that take a
/// reciprocal first, and one mask per squaring round. A round folds the
/// current power into the product on the lanes its mask sets; lanes whose
/// exponent has run out stay unset until the last lane's has.
#[derive(Debug)]
pub struct PowerMasks<const N: usize> {
    pub invert: Mask<N>,
    pub rounds: Vec<Mask<N>>,
}

/// `power_plan` on every lane, as masks.
pub fn power_plan_lanes<const N: usize>(n: &[i32; N]) -> (r: PowerMasks<N>)
    ensures
        forall|i: int| 0 <= i < N ==> #[trigger] r.invert.lanes@[i] == (n@[i] < 0),
        forall|k: int, i: int|
            0 <= k < r.rounds@.len() && 0 <= i < N ==> #[trigger] r.rounds@[k].lanes@[i]
                == power_digit(n@[i] as int, k),
        forall|i: int|
            0 <= i < N ==> #[trigger] binary_digits(magnitude(n@[i] as int)).len()
                <= r.rounds@.len(),
        r.rounds@.len() == 0 || exists|i: int|
            0 <= i < N && #[trigger] binary_digits(magnitude(n@[i] as int)).len()
                == r.rounds@.len(),
{
    let mut invert: [bool; N] = [false; N];
    let mut plans: Vec<PowerPlan> = Vec::new();
    let mut width: usize = 0;
    let mut widest: Ghost<int> = Ghost(0);
    let mut i: usize = 0;
    while i < N
        invariant
            i <= N,
            plans@.len() == i,
            forall|j: int| 0 <= j < i ==> #[trigger] invert@[j] == (n@[j] < 0),
            forall|j: int|
                0 <= j < i ==> #[trigger] plans@[j].digits@ == binary_digits(
                    magnitude(n@[j] as int),
                ),
            forall|j: int| 0 <= j < i ==> #[trigger] plans@[j].digits@.len() <= width,
            width == 0 || (0 <= widest@ < i && plans@[widest@].digits@.len() == width),
        decreases N - i,
    {
        let plan = power_plan(n[i]);
        invert[i] = plan.invert;
        if plan.digits.len() > width {
            width = plan.digits.len();
            widest = Ghost(i as int);
        }
        plans.push(plan);
        i = i + 1;
    }
    let mut rounds: Vec<Mask<N>> = Vec::new();
    let mut k: usize = 0;
    while k < width
        invariant
            k <= width,
            rounds@.len() == k,
            plans@.len() == N,
            forall|j: int| 0 <= j < N ==> #[trigger] plans@[j].digits@.len() <= width,
            forall|j: int|
                0 <= j < N ==> #[trigger] plans@[j].digits@ == binary_digits(
                    magnitude(n@[j] as int),
                ),
            forall|c: int, j: int|
                0 <= c < k && 0 <= j < N ==> #[trigger] rounds@[c].lanes@[j] == power_digit(
                    n@[j] as int,
                    c,
                ),
        decreases width - k,
    {
        let mut lanes: [bool; N] = [false; N];
        let mut j: usize = 0;
        while j < N
            invariant
                j <= N,
                k < width,
                plans@.len() == N,
                forall|c: int|
                    0 <= c < N ==> #[trigger] plans@[c].digits@ == binary_digits(
                        magnitude(n@[c] as int),
                    ),
                forall|c: int|
                    0 <= c < j ==> #[trigger] lanes@[c] == power_digit(n@[c] as int, k as int),
            decreases N - j,
        {
            let digits = &plans[j].digits;
            lanes[j] = k < digits.len() && digits[k];
            j = j + 1;
        }
        rounds.push(Mask { lanes });
        k = k + 1;
    }
    proof {
        assert forall|i: int| 0 <= i < N implies #[trigger] binary_digits(
            magnitude(n@[i] as int),
        ).len() <= rounds@.len() by {
            assert(plans@[i].digits@.len() <= width);
        }
        if width > 0 {
            assert(binary_digits(magnitude(n@[widest@] as int)).len() == rounds@.len());
        }
    }
    PowerMasks { invert: Mask { lanes: invert }, rounds }
}

} // verus!
