//! Integer facts shared by the value operations: division that rounds toward
//! zero, as Rust's `/` and `%` do on signed integers.
use vstd::prelude::*;

verus! {

/// The quotient of `x` by `d`, rounded toward zero (Rust's `/`).
pub open spec fn quotient_toward_zero(x: int, d: int) -> int {
    if x >= 0 {
        x / d
    } else {
        -((-x) / d)
    }
}

/// The remainder of `x` by `d` that has the sign of `x` (Rust's `%`).
pub open spec fn remainder_toward_zero(x: int, d: int) -> int {
    if x >= 0 {
        x % d
    } else {
        -((-x) % d)
    }
}

/// The quotient rounded toward zero is no larger in magnitude than the dividend.
pub proof fn lemma_quotient_bounded(x: int, d: int)
    requires
        d != 0,
    ensures
        x >= 0 && d > 0 ==> 0 <= x / d <= x,
        x >= 0 && d < 0 ==> -x <= x / d <= 0,
        x < 0 && d > 0 ==> 0 <= (-x) / d <= -x,
        x < 0 && d < 0 ==> x <= (-x) / d <= 0,
{
    if d > 0 {
        if x >= 0 {
            assert(0 <= x / d <= x) by (nonlinear_arith)
                requires x >= 0, d > 0;
        } else {
            assert(0 <= (-x) / d <= -x) by (nonlinear_arith)
                requires -x > 0, d > 0;
        }
    } else {
        if x >= 0 {
            assert(-x <= x / d <= 0) by (nonlinear_arith)
                requires x >= 0, d < 0;
        } else {
            assert(x <= (-x) / d <= 0) by (nonlinear_arith)
                requires -x > 0, d < 0;
        }
    }
}

/// Rust's signed `/` and `%` split the dividend into quotient and remainder:
/// `x == d * q + m`, where `m` has the sign of `x` and is smaller in magnitude than `d`.
pub proof fn lemma_division_identity(x: int, d: int)
    requires
        d != 0,
    ensures
        x == d * quotient_toward_zero(x, d) + remainder_toward_zero(x, d),
        x >= 0 ==> 0 <= remainder_toward_zero(x, d),
        x < 0 ==> remainder_toward_zero(x, d) <= 0,
        d > 0 ==> -d < remainder_toward_zero(x, d) < d,
        d < 0 ==> d < remainder_toward_zero(x, d) < -d,
{
    if x >= 0 {
        assert(x == d * (x / d) + x % d) by (nonlinear_arith)
            requires d != 0;
        assert(0 <= x % d < if d > 0 { d } else { -d }) by (nonlinear_arith)
            requires d != 0;
    } else {
        let y = -x;
        assert(y == d * (y / d) + y % d) by (nonlinear_arith)
            requires d != 0;
        assert(0 <= y % d < if d > 0 { d } else { -d }) by (nonlinear_arith)
            requires d != 0;
        assert(x == d * (-(y / d)) + (-(y % d))) by (nonlinear_arith)
            requires y == d * (y / d) + y % d, x == -y;
    }
}

} // verus!
