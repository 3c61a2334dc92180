//! Fixed-point scalars: a real number `x` is held as the integer `x * ONE`.
use vstd::prelude::*;

verus! {

/// The fixed-point unit: the integer `ONE` stands for the real number 1.
pub const ONE: i64 = 1_000_000;

/// Whether an integer fits in an `i64`.
pub open spec fn fits(x: int) -> bool {
    i64::MIN <= x <= i64::MAX
}

/// Integer division rounded toward zero, for a positive divisor.
pub open spec fn trunc_div(a: int, b: int) -> int {
    if a >= 0 {
        a / b
    } else {
        -((-a) / b)
    }
}

/// The fixed-point product of `a` and `b`, rounded toward zero.
pub open spec fn fx_mul(a: int, b: int) -> int {
    trunc_div(a * b, ONE as int)
}

/// Scaling by a factor in `[0, 1]` never grows a value and keeps its sign.
pub proof fn lemma_scale_shrinks(a: int, b: int)
    requires
        0 <= b <= ONE,
    ensures
        a >= 0 ==> 0 <= fx_mul(a, b) <= a,
        a < 0 ==> a <= fx_mul(a, b) <= 0,
{
    let one = ONE as int;
    if a >= 0 {
        assert(0 <= a * b <= a * one) by (nonlinear_arith)
            requires a >= 0, 0 <= b <= one;
        assert(0 <= (a * b) / one <= (a * one) / one) by (nonlinear_arith)
            requires 0 <= a * b <= a * one, one > 0;
        assert((a * one) / one == a) by (nonlinear_arith)
            requires one > 0;
    } else {
        let na = -a;
        assert(0 <= na * b <= na * one) by (nonlinear_arith)
            requires na > 0, 0 <= b <= one;
        assert(0 <= (na * b) / one <= (na * one) / one) by (nonlinear_arith)
            requires 0 <= na * b <= na * one, one > 0;
        assert((na * one) / one == na) by (nonlinear_arith)
            requires one > 0;
        assert(-(a * b) == na * b) by (nonlinear_arith)
            requires na == -a;
    }
}

/// Scaling by a factor below one strictly shrinks a non-zero value.
pub proof fn lemma_scale_strictly_shrinks(a: int, b: int)
    requires
        0 <= b < ONE,
        a != 0,
    ensures
        a > 0 ==> fx_mul(a, b) < a,
        a < 0 ==> a < fx_mul(a, b),
{
    let one = ONE as int;
    let m = if a > 0 { a } else { -a };
    assert(m * b < m * one) by (nonlinear_arith)
        requires m > 0, 0 <= b < one;
    assert(m * b >= 0) by (nonlinear_arith)
        requires m > 0, b >= 0;
    assert((m * b) / one < m) by (nonlinear_arith)
        requires 0 <= m * b < m * one, one > 0;
    if a < 0 {
        assert(-(a * b) == m * b) by (nonlinear_arith)
            requires m == -a;
    }
}

/// The fixed-point product of two values.
pub fn fx_mul_exec(a: i64, b: i64) -> (r: i64)
    requires
        fits(fx_mul(a as int, b as int)),
    ensures
        r == fx_mul(a as int, b as int),
{
    let ai = a as i128;
    let bi = b as i128;
    assert(-0x4000_0000_0000_0000_0000_0000_0000_0000 <= (ai as int) * (bi as int)
        <= 0x4000_0000_0000_0000_0000_0000_0000_0000) by (nonlinear_arith)
        requires
            -0x8000_0000_0000_0000 <= ai <= 0x7fff_ffff_ffff_ffff,
            -0x8000_0000_0000_0000 <= bi <= 0x7fff_ffff_ffff_ffff,
    ;
    let p: i128 = ai * bi;
    let q: i128 = if p >= 0 {
        p / (ONE as i128)
    } else {
        -((-p) / (ONE as i128))
    };
    q as i64
}

} // verus!
