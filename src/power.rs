use vstd::prelude::*;

verus! {

/// `|n|`.
pub open spec fn magnitude(n: int) -> nat {
    if n < 0 {
        (-n) as nat
    } else {
        n as nat
    }
}

/// The binary digits of `m`, lowest first, without trailing zeros: the bits
/// that exponentiation by squaring tests, one per squaring, until the
/// exponent reaches zero.
pub open spec fn binary_digits(m: nat) -> Seq<bool>
    decreases m,
{
    if m == 0 {
        Seq::empty()
    } else {
        seq![m % 2 == 1] + binary_digits(m / 2)
    }
}

/// The number that a sequence of binary digits, lowest first, stands for.
pub open spec fn digits_value(s: Seq<bool>) -> nat
    decreases s.len(),
{
    if s.len() == 0 {
        0
    } else {
        (if s[0] {
            1nat
        } else {
            0nat
        }) + 2 * digits_value(s.drop_first())
    }
}

/// The schedule of an integer power `x^n` by squaring: take the reciprocal of
/// `x` first when `invert` holds, then, for each digit in turn, fold the
/// current power of `x` into the product when the digit is set and square it.
#[derive(Debug)]
pub struct PowerPlan {
    pub invert: bool,
    pub digits: Vec<bool>,
}

/// The squaring schedule of `x^n`: a reciprocal for a negative `n`, and the
/// binary digits of `|n|`.
pub fn power_plan(n: i32) -> (r: PowerPlan)
    ensures
        r.invert == (n < 0),
        r.digits@ == binary_digits(magnitude(n as int)),
{
    let mut m: u32 = if n < 0 {
        (0i64 - n as i64) as u32
    } else {
        n as u32
    };
    let mut digits: Vec<bool> = Vec::new();
    while m != 0
        invariant
            digits@ + binary_digits(m as nat) == binary_digits(magnitude(n as int)),
        decreases m,
    {
        let low: bool = m & 1 == 1;
        let next: u32 = m >> 1;
        assert(low == (m % 2 == 1) && next == m / 2) by (bit_vector)
            requires
                low == (m & 1 == 1),
                next == m >> 1,
        ;
        assert(binary_digits(m as nat) == seq![low] + binary_digits(next as nat));
        assert(digits@.push(low) + binary_digits(next as nat) =~= digits@ + (seq![low]
            + binary_digits(next as nat)));
        digits.push(low);
        m = next;
    }
    assert(digits@ + binary_digits(0) =~= digits@);
    PowerPlan { invert: n < 0, digits }
}

/// The binary digits of `m` stand for `m`, and the last of them, if any, is
/// set: squaring by them multiplies out exactly `x^m`, with no idle rounds.
pub proof fn lemma_digits_value(m: nat)
    ensures
        digits_value(binary_digits(m)) == m,
        binary_digits(m).len() > 0 ==> binary_digits(m).last(),
        binary_digits(m).len() == 0 <==> m == 0,
    decreases m,
{
    if m > 0 {
        lemma_digits_value(m / 2);
        let s = binary_digits(m);
        assert(s.drop_first() =~= binary_digits(m / 2));
        if m / 2 == 0 {
            assert(m == 1);
        }
    }
}

/// A zero exponent folds nothing into the product, so `x^0` is the empty
/// product `1` for every base.
pub proof fn lemma_zero_exponent()
    ensures
        binary_digits(magnitude(0)) == Seq::<bool>::empty(),
{
}

/// Negating a positive exponent keeps the squaring digits; `power_plan` then
/// differs only in taking the reciprocal first: `x^-n` is `(1/x)^n`.
pub proof fn lemma_negated_exponent(n: int)
    requires
        n > 0,
    ensures
        binary_digits(magnitude(-n)) == binary_digits(magnitude(n)),
        digits_value(binary_digits(magnitude(-n))) == n,
{
    lemma_digits_value(n as nat);
}

} // verus!
