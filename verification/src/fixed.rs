use vstd::arithmetic::div_mod::{
    lemma_div_is_ordered, lemma_div_multiples_vanish, lemma_div_nonincreasing,
    lemma_div_pos_is_pos, lemma_fundamental_div_mod,
};
use vstd::arithmetic::mul::{lemma_mul_is_associative, lemma_mul_is_commutative};
use vstd::prelude::*;

verus! {

/// Fixed-point scale: number of stored steps per world unit and per second.
pub const MILLI: i64 = 1000;

/// Largest magnitude either factor of `mul_milli` may have; the product of
/// two such values still fits in an `i64`.
pub const FP_FACTOR_LIMIT: i64 = 3_000_000_000;

/// Division truncated toward zero, as machine division of signed integers
/// truncates.
pub open spec fn div_trunc(x: int, d: int) -> int
    recommends
        d > 0,
{
    if x >= 0 {
        x / d
    } else {
        -((-x) / d)
    }
}

/// Truncating division by the fixed-point scale.
pub open spec fn div_milli(x: int) -> int {
    div_trunc(x, 1000)
}

/// The fixed-point product of `a` and `b`: the mathematical product scaled
/// back down by `MILLI`, truncated toward zero.
pub open spec fn mul_milli_spec(a: int, b: int) -> int {
    div_milli(a * b)
}

/// Truncating division never grows a value's magnitude and never changes
/// its sign.
pub proof fn lemma_div_trunc_bounds(x: int, d: int)
    requires
        d >= 1,
    ensures
        x >= 0 ==> 0 <= div_trunc(x, d) <= x,
        x <= 0 ==> x <= div_trunc(x, d) <= 0,
{
    if x >= 0 {
        lemma_div_pos_is_pos(x, d);
        lemma_div_nonincreasing(x, d);
    } else {
        lemma_div_pos_is_pos(-x, d);
        lemma_div_nonincreasing(-x, d);
    }
}

/// When the divisor divides the second factor exactly, the fixed-point
/// product is the exact mathematical product of `a` and `b / 1000`.
pub proof fn lemma_mul_milli_exact(a: int, b: int)
    requires
        b % 1000 == 0,
    ensures
        mul_milli_spec(a, b) == a * (b / 1000),
{
    let k = b / 1000;
    lemma_fundamental_div_mod(b, 1000);
    assert(b == 1000 * k);
    assert(a * b == 1000 * (a * k)) by {
        lemma_mul_is_associative(a, 1000, k);
        lemma_mul_is_commutative(a, 1000);
        lemma_mul_is_associative(1000, a, k);
    }
    if a * k >= 0 {
        lemma_div_multiples_vanish(a * k, 1000);
    } else {
        lemma_div_multiples_vanish(a * k, 1000);
        assert(-(a * b) == 1000 * (-(a * k)));
        lemma_div_multiples_vanish(-(a * k), 1000);
    }
}

/// A bound on the product gives a thousandfold tighter bound on the
/// fixed-point product.
pub proof fn lemma_mul_milli_spec_bound(a: int, b: int, bound: int)
    requires
        0 <= bound,
        -bound <= a * b <= bound,
    ensures
        -(bound / 1000) <= mul_milli_spec(a, b) <= bound / 1000,
{
    let p = a * b;
    lemma_div_pos_is_pos(bound, 1000);
    if p >= 0 {
        lemma_div_pos_is_pos(p, 1000);
        lemma_div_is_ordered(p, bound, 1000);
    } else {
        lemma_div_pos_is_pos(-p, 1000);
        lemma_div_is_ordered(-p, bound, 1000);
    }
}

/// Multiply two fixed-point values and rescale the product. The result
/// keeps the product's sign and never exceeds its magnitude.
pub fn mul_milli(a: i64, b: i64) -> (r: i64)
    requires
        -FP_FACTOR_LIMIT <= a <= FP_FACTOR_LIMIT,
        -FP_FACTOR_LIMIT <= b <= FP_FACTOR_LIMIT,
    ensures
        r == mul_milli_spec(a as int, b as int),
        a * b >= 0 ==> 0 <= r <= a * b,
        a * b <= 0 ==> a * b <= r <= 0,
{
    proof {
        assert(i64::MIN <= a * b <= i64::MAX) by (nonlinear_arith)
            requires
                -3_000_000_000 <= a <= 3_000_000_000,
                -3_000_000_000 <= b <= 3_000_000_000,
        ;
        lemma_div_trunc_bounds(a * b, 1000);
    }
    let p: i64 = a * b;
    p / 1000
}

} // verus!
