use vstd::prelude::*;

verus! {

/// The fixed-point unit: envelope amplitudes, grain progress, selection
/// positions and gain are all counted in parts of `UNITY`, which stands for 1.0.
pub const UNITY: u32 = 65536;

/// Integer division rounded toward zero, as Rust rounds signed division.
pub open spec fn trunc_div(a: int, d: int) -> int {
    if a >= 0 {
        a / d
    } else {
        -((-a) / d)
    }
}

/// Divides `a` by the positive `d`, rounding toward zero.
pub fn div_toward_zero(a: i128, d: i128) -> (r: i128)
    requires
        d > 0,
        a > i128::MIN,
    ensures
        r == trunc_div(a as int, d as int),
{
    if a >= 0 {
        a / d
    } else {
        -((-a) / d)
    }
}

/// A bound on the dividend bounds the quotient.
pub proof fn lemma_trunc_div_bound(a: int, d: int, m: int)
    requires
        d > 0,
        m >= 0,
        -m * d <= a <= m * d,
    ensures
        -m <= trunc_div(a, d) <= m,
{
    if a >= 0 {
        assert(a / d <= m) by (nonlinear_arith) requires a >= 0, d > 0, a <= m * d;
        assert(a / d >= 0) by (nonlinear_arith) requires a >= 0, d > 0;
    } else {
        assert(-a <= m * d) by (nonlinear_arith) requires -m * d <= a;
        assert((-a) / d <= m) by (nonlinear_arith) requires -a > 0, d > 0, -a <= m * d;
        assert((-a) / d >= 0) by (nonlinear_arith) requires -a > 0, d > 0;
    }
}

/// Dividing an exact multiple gives the factor back.
pub proof fn lemma_trunc_div_multiple(x: int, d: int)
    requires
        d > 0,
    ensures
        trunc_div(x * d, d) == x,
{
    if x >= 0 {
        assert(x * d >= 0) by (nonlinear_arith) requires x >= 0, d > 0;
        assert((x * d) / d == x) by (nonlinear_arith) requires d > 0;
    } else {
        assert(x * d < 0) by (nonlinear_arith) requires x < 0, d > 0;
        assert((-(x * d)) / d == -x) by (nonlinear_arith) requires d > 0;
    }
}

/// Rounding toward zero is monotone in the dividend.
pub proof fn lemma_trunc_div_monotone(a: int, b: int, d: int)
    requires
        d > 0,
        a <= b,
    ensures
        trunc_div(a, d) <= trunc_div(b, d),
{
    if a >= 0 {
        assert(a / d <= b / d) by (nonlinear_arith) requires 0 <= a <= b, d > 0;
    } else if b >= 0 {
        assert((-a) / d >= 0) by (nonlinear_arith) requires -a > 0, d > 0;
        assert(b / d >= 0) by (nonlinear_arith) requires b >= 0, d > 0;
    } else {
        assert((-b) / d <= (-a) / d) by (nonlinear_arith) requires 0 < -b <= -a, d > 0;
    }
}

} // verus!
