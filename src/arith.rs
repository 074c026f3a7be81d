//! Integer division that rounds toward zero, as a cast from a real number does.
use vstd::prelude::*;

verus! {

/// `x / d` rounded toward zero, for a positive divisor `d`.
pub open spec fn div_toward_zero(x: int, d: int) -> int {
    if x >= 0 {
        x / d
    } else {
        -((-x) / d)
    }
}

/// Division rounding toward zero is monotonic in the dividend.
pub proof fn lemma_div_toward_zero_monotonic(x: int, y: int, d: int)
    requires
        x <= y,
        d > 0,
    ensures
        div_toward_zero(x, d) <= div_toward_zero(y, d),
{
    if x >= 0 {
        assert(x / d <= y / d) by (nonlinear_arith)
            requires 0 <= x <= y, d > 0;
    } else if y < 0 {
        assert((-y) / d <= (-x) / d) by (nonlinear_arith)
            requires 0 < -y <= -x, d > 0;
    } else {
        assert((-x) / d >= 0) by (nonlinear_arith)
            requires -x > 0, d > 0;
        assert(y / d >= 0) by (nonlinear_arith)
            requires y >= 0, d > 0;
    }
}

/// `x / d` rounded toward zero.
pub fn div_i64_toward_zero(x: i64, d: i64) -> (r: i64)
    requires
        d > 0,
        x > i64::MIN,
    ensures
        r == div_toward_zero(x as int, d as int),
{
    if x >= 0 {
        x / d
    } else {
        let q = (-x) / d;
        assert(q <= -x) by (nonlinear_arith)
            requires q == (-x) / (d as int), -x > 0, d > 0;
        -q
    }
}

} // verus!
