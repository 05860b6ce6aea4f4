//! Fixed-point scalars: the unit, division and clamping.

use vstd::prelude::*;

verus! {

/// One, in millionths.
pub const UNIT: i32 = 1_000_000;

/// The quotient `a / b` rounded toward zero, for a positive divisor.
pub open spec fn div_toward_zero(a: int, b: int) -> int
    recommends
        b > 0,
{
    if a >= 0 {
        a / b
    } else {
        -((-a) / b)
    }
}

/// `x` held to the range from zero to one.
pub open spec fn clamp_unit(x: int) -> int {
    if x < 0 {
        0
    } else if x > UNIT {
        UNIT as int
    } else {
        x
    }
}

/// Rounding toward zero never leaves more than the divisor behind, and takes
/// the side of the dividend: `q * b` lies between zero and `a`, less than `b`
/// away from `a`.
pub proof fn lemma_div_toward_zero_bounds(a: int, b: int)
    requires
        b > 0,
    ensures
        a >= 0 ==> 0 <= a - div_toward_zero(a, b) * b < b && div_toward_zero(a, b) >= 0,
        a <= 0 ==> 0 <= div_toward_zero(a, b) * b - a < b && div_toward_zero(a, b) <= 0,
        div_toward_zero(-a, b) == -div_toward_zero(a, b),
{
    let m: int = if a >= 0 { a } else { -a };
    assert(0 <= m - (m / b) * b < b && m / b >= 0) by (nonlinear_arith)
        requires
            m >= 0,
            b > 0,
    ;
    assert((-(m / b)) * b == -((m / b) * b)) by (nonlinear_arith);
    assert(0int / b == 0) by (nonlinear_arith)
        requires
            b > 0,
    ;
}

/// An exact multiple divides without remainder.
pub proof fn lemma_div_toward_zero_exact(q: int, b: int)
    requires
        b > 0,
    ensures
        div_toward_zero(q * b, b) == q,
{
    if q >= 0 {
        assert(q * b >= 0 && (q * b) / b == q) by (nonlinear_arith)
            requires
                q >= 0,
                b > 0,
        ;
    } else {
        assert(q * b < 0 && (-(q * b)) / b == -q) by (nonlinear_arith)
            requires
                q < 0,
                b > 0,
        ;
    }
}

/// A common factor of dividend and divisor does not change the quotient.
pub proof fn lemma_div_toward_zero_scale(a: int, b: int, k: int)
    requires
        b > 0,
        k > 0,
    ensures
        k * b > 0,
        div_toward_zero(k * a, k * b) == div_toward_zero(a, b),
{
    let m: int = if a >= 0 { a } else { -a };
    vstd::arithmetic::div_mod::lemma_div_multiples_vanish_quotient(k, m, b);
    assert((a >= 0 ==> k * a >= 0 && k * a == k * m) && (a < 0 ==> k * a < 0 && -(k * a) == k
        * m)) by (nonlinear_arith)
        requires
            k > 0,
            m >= 0,
            m == if a >= 0 { a } else { -a },
    ;
}

/// Half the divisor doubles the quotient, up to the rounding: the quotient by
/// `b` is twice the quotient by `2 * b`, or one further from zero, and it is
/// twice that quotient where `2 * b` divides without remainder.
pub proof fn lemma_div_toward_zero_halving(a: int, b: int)
    requires
        b > 0,
    ensures
        ({
            let narrow = div_toward_zero(a, b);
            let wide = div_toward_zero(a, 2 * b);
            &&& a >= 0 ==> 2 * wide <= narrow <= 2 * wide + 1
            &&& a <= 0 ==> 2 * wide - 1 <= narrow <= 2 * wide
            &&& a % (2 * b) == 0 ==> narrow == 2 * wide
        }),
{
    let m: int = if a >= 0 { a } else { -a };
    vstd::arithmetic::div_mod::lemma_div_denominator(m, b, 2);
    assert(b * 2 == 2 * b);
    assert(0int / b == 0 && 0int / (2 * b) == 0) by (nonlinear_arith)
        requires
            b > 0,
    ;
    if a % (2 * b) == 0 {
        vstd::arithmetic::div_mod::lemma_fundamental_div_mod(a, 2 * b);
        let t = a / (2 * b);
        assert(a == (2 * t) * b && a == t * (2 * b)) by (nonlinear_arith)
            requires
                a == (2 * b) * t + 0,
        ;
        lemma_div_toward_zero_exact(2 * t, b);
        lemma_div_toward_zero_exact(t, 2 * b);
    }
}

/// Division rounded toward zero, on machine integers.
pub(crate) fn div_round_zero(a: i128, b: i128) -> (q: i128)
    requires
        b > 0,
    ensures
        q == div_toward_zero(a as int, b as int),
{
    a / b
}

} // verus!
