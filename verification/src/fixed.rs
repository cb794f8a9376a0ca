//! Fixed-point arithmetic: the unit, rounding division and the integer
//! square root.

use vstd::prelude::*;

verus! {

/// One world unit. A length `l` stands for `l / UNIT` world units.
pub const UNIT: i64 = 1_000_000;

/// The quotient of `a` by a positive `b`, rounded toward zero.
pub open spec fn quotient(a: int, b: int) -> int {
    if a >= 0 {
        a / b
    } else {
        -((-a) / b)
    }
}

/// `r` is the square root of `n`, rounded down.
pub open spec fn is_floor_sqrt(n: int, r: int) -> bool {
    0 <= r && r * r <= n && n < (r + 1) * (r + 1)
}

/// The square root of `n`, rounded down (meaningful for `n >= 0`).
pub open spec fn floor_sqrt(n: int) -> int {
    choose|r: int| is_floor_sqrt(n, r)
}

/// A number has at most one rounded-down square root.
pub proof fn lemma_floor_sqrt_unique(n: int, r: int)
    requires
        is_floor_sqrt(n, r),
    ensures
        floor_sqrt(n) == r,
{
    let s = floor_sqrt(n);
    assert(is_floor_sqrt(n, s));
    assert(s == r) by (nonlinear_arith)
        requires
            0 <= r,
            r * r <= n,
            n < (r + 1) * (r + 1),
            0 <= s,
            s * s <= n,
            n < (s + 1) * (s + 1),
    ;
}

/// Every number from zero on has a rounded-down square root.
pub proof fn lemma_floor_sqrt_exists(n: int)
    requires
        0 <= n,
    ensures
        is_floor_sqrt(n, floor_sqrt(n)),
    decreases n,
{
    if n == 0 {
        assert(is_floor_sqrt(0, 0));
    } else {
        lemma_floor_sqrt_exists(n - 1);
        let r = floor_sqrt(n - 1);
        if (r + 1) * (r + 1) <= n {
            assert(is_floor_sqrt(n, r + 1)) by (nonlinear_arith)
                requires
                    0 <= r,
                    n - 1 < (r + 1) * (r + 1),
                    (r + 1) * (r + 1) <= n,
            ;
        } else {
            assert(is_floor_sqrt(n, r));
        }
    }
}

/// The quotient rounded toward zero lies between zero and the dividend; the
/// divisor times the quotient lies between zero and the dividend too, and
/// less than the divisor from the dividend. Dividing the opposite number
/// gives the opposite quotient.
pub proof fn lemma_quotient_bounds(a: int, b: int)
    requires
        b > 0,
    ensures
        a >= 0 ==> 0 <= quotient(a, b) <= a && b * quotient(a, b) <= a < b * quotient(a, b) + b,
        a <= 0 ==> a <= quotient(a, b) <= 0 && b * quotient(a, b) - b < a <= b * quotient(a, b),
        quotient(-a, b) == -quotient(a, b),
{
    assert(a >= 0 ==> 0 <= a / b <= a && b * (a / b) <= a < b * (a / b) + b) by (nonlinear_arith)
        requires
            b > 0,
    ;
    let c = -a;
    assert(c >= 0 ==> 0 <= c / b <= c && b * (c / b) <= c < b * (c / b) + b) by (nonlinear_arith)
        requires
            b > 0,
    ;
    assert(b * (-(c / b)) == -(b * (c / b))) by (nonlinear_arith);
}

/// `a * b / d`, rounded toward zero.
pub fn mul_div(a: i64, b: i64, d: i64) -> (q: i64)
    requires
        d > 0,
        i64::MIN <= a * b <= i64::MAX,
    ensures
        q == quotient(a * b, d as int),
{
    let p: i64 = a * b;
    p / d
}

/// The square root of `n`, rounded down.
pub fn isqrt(n: u64) -> (r: u64)
    ensures
        is_floor_sqrt(n as int, r as int),
        r == floor_sqrt(n as int),
{
    let mut r: u64 = 0;
    let mut width: u64 = 4_294_967_296;
    while width > 1
        invariant
            1 <= width,
            r + width <= 4_294_967_296,
            r * r <= n,
            n < (r + width) * (r + width),
        decreases width,
    {
        let half: u64 = width / 2;
        let t: u64 = r + half;
        assert(t * t <= 0xffff_ffff_ffff_ffff) by (nonlinear_arith)
            requires
                0 <= t <= 4_294_967_295,
        ;
        if t * t <= n {
            r = t;
            width = width - half;
        } else {
            width = half;
        }
    }
    proof {
        lemma_floor_sqrt_unique(n as int, r as int);
    }
    r
}

} // verus!
