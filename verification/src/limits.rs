//! Whole-number arithmetic held to the range of `i64`.

use vstd::prelude::*;
use vstd::arithmetic::div_mod::{lemma_fundamental_div_mod, lemma_mod_bound};

verus! {

/// The value of `x` held to the range of `i64`: `x` itself where it fits,
/// otherwise the nearest bound.
pub open spec fn clip(x: int) -> int {
    if x < i64::MIN {
        i64::MIN as int
    } else if x > i64::MAX {
        i64::MAX as int
    } else {
        x
    }
}

/// The quotient of `n` by `d` with the fraction dropped, so that the result
/// is never further from zero than the exact quotient.
pub open spec fn quotient_toward_zero(n: int, d: int) -> int
    recommends
        d != 0,
{
    if n >= 0 && d > 0 {
        n / d
    } else if n >= 0 {
        -(n / (-d))
    } else if d > 0 {
        -((-n) / d)
    } else {
        (-n) / (-d)
    }
}

/// The size of `x` without its sign.
pub open spec fn magnitude(x: int) -> int {
    if x < 0 {
        -x
    } else {
        x
    }
}

/// Dropping the fraction leaves a remainder that is smaller in size than the
/// divisor and never of the opposite sign to the dividend: the quotient is
/// the whole number nearest to the exact one on the side of zero.
pub proof fn law_quotient_drops_fraction(n: int, d: int)
    requires
        d != 0,
    ensures
        magnitude(n - quotient_toward_zero(n, d) * d) < magnitude(d),
        n >= 0 ==> n - quotient_toward_zero(n, d) * d >= 0,
        n <= 0 ==> n - quotient_toward_zero(n, d) * d <= 0,
{
    let size_n = magnitude(n);
    let size_d = magnitude(d);
    let q = size_n / size_d;
    let r = size_n % size_d;
    lemma_fundamental_div_mod(size_n, size_d);
    lemma_mod_bound(size_n, size_d);
    assert(size_n == size_d * q + r);
    if n >= 0 && d > 0 {
        assert(n - q * d == r) by (nonlinear_arith)
            requires
                n == d * q + r,
        ;
    } else if n >= 0 {
        assert(n - (-q) * d == r) by (nonlinear_arith)
            requires
                n == (-d) * q + r,
        ;
    } else if d > 0 {
        assert(n - (-q) * d == -r) by (nonlinear_arith)
            requires
                -n == d * q + r,
        ;
    } else {
        assert(n - q * d == -r) by (nonlinear_arith)
            requires
                -n == (-d) * q + r,
        ;
    }
}

/// Narrows a wide intermediate result to `i64`, stopping at the bounds.
pub(crate) fn saturate(x: i128) -> (r: i64)
    ensures
        r == clip(x as int),
{
    if x < i64::MIN as i128 {
        i64::MIN
    } else if x > i64::MAX as i128 {
        i64::MAX
    } else {
        x as i64
    }
}

/// Divides with the fraction dropped.
pub(crate) fn divide_toward_zero(n: i128, d: i128) -> (r: i128)
    requires
        d != 0,
        n > i128::MIN,
        d > i128::MIN,
    ensures
        r == quotient_toward_zero(n as int, d as int),
{
    if n >= 0 && d > 0 {
        n / d
    } else if n >= 0 {
        -(n / (-d))
    } else if d > 0 {
        -((-n) / d)
    } else {
        (-n) / (-d)
    }
}

} // verus!
