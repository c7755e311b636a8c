use vstd::arithmetic::div_mod::lemma_mod_multiples_vanish;
use vstd::prelude::*;

verus! {

/// The symmetry flags of one quarter-period of the sine/cosine reduction.
///
/// After `x` is reduced by the period `π/2` to `u` with quotient `n`, the
/// shared kernel is evaluated on `-u` when `reflect` holds and on `u`
/// otherwise, and its result is negated when `negate` holds.
#[derive(Clone, Copy, Debug, PartialEq, Eq, Structural)]
pub struct Quadrant {
    pub reflect: bool,
    pub negate: bool,
}

/// The flags owed to the quarter-period count `n`: odd quarters reflect, and
/// the third and fourth quarters of each period (`n mod 4` in `{2, 3}`) negate.
pub open spec fn quadrant_of(n: int) -> Quadrant {
    Quadrant { reflect: n % 2 == 1, negate: n % 4 >= 2 }
}

/// The symmetry flags for the quarter-period count `n`.
pub fn sin_quadrant(n: i32) -> (r: Quadrant)
    ensures
        r == quadrant_of(n as int),
{
    let u: u32 = n as u32;
    let low: u32 = u & 3;
    proof {
        assert(low == u % 4 && low < 4) by (bit_vector)
            requires
                low == u & 3,
        ;
        assert(n >= 0 ==> u as i64 == n as i64) by (bit_vector)
            requires
                u == n as u32,
        ;
        assert(n < 0 ==> u as i64 == n as i64 + 0x1_0000_0000i64) by (bit_vector)
            requires
                u == n as u32,
        ;
        lemma_mod_multiples_vanish(0x4000_0000, n as int, 4);
        assert(low == (n as int) % 4);
    }
    Quadrant { reflect: low == 1 || low == 3, negate: low >= 2 }
}

} // verus!
