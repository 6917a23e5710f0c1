//! Fixed-point scalar arithmetic with nine decimal places.
//!
//! A scalar is an `i128` holding the real value times `SCALE`. Products and
//! quotients are truncated toward zero, as the hardware division does, and
//! every executable operation is proved equal to its specification-level
//! counterpart (`sp_fmul`, `sp_fdiv`, `sp_sqrt`).

use vstd::prelude::*;
use vstd::arithmetic::div_mod::lemma_div_is_ordered;
use vstd::arithmetic::div_mod::lemma_div_is_ordered_by_denominator;
use vstd::arithmetic::div_mod::lemma_div_pos_is_pos;

verus! {

/// Fixed-point steps that stand for the real number 1.0.
pub const SCALE: i128 = 1_000_000_000;

/// `SCALE * SCALE`, the square of one in fixed-point units.
pub const SCALE2: i128 = 1_000_000_000_000_000_000;

/// Division truncated toward zero, for a positive divisor: the rounding that
/// hardware division performs on signed operands.
pub open spec fn tdiv(p: int, d: int) -> int {
    if p >= 0 {
        p / d
    } else {
        -((-p) / d)
    }
}

/// Fixed-point product: `a * b` rescaled, truncated toward zero.
pub open spec fn sp_fmul(a: int, b: int) -> int {
    tdiv(a * b, SCALE as int)
}

/// Fixed-point quotient: `a / b` rescaled, truncated toward zero.
pub open spec fn sp_fdiv(a: int, b: int) -> int {
    tdiv(a * (SCALE as int), b)
}

/// Clamp into a closed interval.
pub open spec fn sp_clamp(x: int, lo: int, hi: int) -> int {
    if x < lo {
        lo
    } else if x > hi {
        hi
    } else {
        x
    }
}

/// Integer square root, defined by counting up; `lemma_sqrt_bracket` gives
/// its characteristic bracket.
pub open spec fn sqrt_rec(n: nat) -> nat
    decreases n,
{
    if n == 0 {
        0
    } else {
        let p = sqrt_rec((n - 1) as nat);
        if (p + 1) * (p + 1) <= n {
            p + 1
        } else {
            p
        }
    }
}

/// Integer square root of a nonnegative value.
pub open spec fn sp_sqrt(n: int) -> int {
    sqrt_rec(n as nat) as int
}

/// The square root sits in its defining bracket.
pub proof fn lemma_sqrt_bracket(n: int)
    requires
        0 <= n,
    ensures
        0 <= sp_sqrt(n),
        sp_sqrt(n) * sp_sqrt(n) <= n,
        n < (sp_sqrt(n) + 1) * (sp_sqrt(n) + 1),
    decreases n,
{
    if n == 0 {
    } else {
        lemma_sqrt_bracket(n - 1);
        let p = sp_sqrt(n - 1);
        if (p + 1) * (p + 1) <= n {
            assert(n < (p + 2) * (p + 2)) by (nonlinear_arith)
                requires
                    0 <= p,
                    n - 1 < (p + 1) * (p + 1),
            ;
        }
    }
}

/// Any value sitting in the square-root bracket is the square root.
pub proof fn lemma_sqrt_unique(n: int, r: int)
    requires
        0 <= n,
        0 <= r,
        r * r <= n,
        n < (r + 1) * (r + 1),
    ensures
        r == sp_sqrt(n),
{
    lemma_sqrt_bracket(n);
    let s = sp_sqrt(n);
    if r < s {
        assert(s * s <= n);
        assert((r + 1) * (r + 1) <= s * s) by (nonlinear_arith)
            requires
                0 <= r,
                r + 1 <= s,
        ;
    }
    if s < r {
        assert((s + 1) * (s + 1) <= r * r) by (nonlinear_arith)
            requires
                0 <= s,
                s + 1 <= r,
        ;
    }
}

/// Truncated division shrinks magnitudes: a bound on the dividend bounds the
/// quotient.
pub proof fn lemma_tdiv_abs(p: int, d: int, m: int)
    requires
        1 <= d,
        0 <= m,
        -m <= p <= m,
    ensures
        -(m / d) <= tdiv(p, d) <= m / d,
{
    if p >= 0 {
        lemma_div_is_ordered(p, m, d);
        lemma_div_pos_is_pos(p, d);
    } else {
        lemma_div_is_ordered(-p, m, d);
        lemma_div_pos_is_pos(-p, d);
    }
}

/// Bounds on both factors bound the plain product and the fixed-point
/// product.
pub proof fn lemma_fmul_le(a: int, b: int, ma: int, mb: int)
    requires
        0 <= ma,
        0 <= mb,
        -ma <= a <= ma,
        -mb <= b <= mb,
    ensures
        -(ma * mb) <= a * b <= ma * mb,
        -((ma * mb) / (SCALE as int)) <= sp_fmul(a, b) <= (ma * mb) / (SCALE as int),
{
    assert(-(ma * mb) <= a * b <= ma * mb) by (nonlinear_arith)
        requires
            0 <= ma,
            0 <= mb,
            -ma <= a <= ma,
            -mb <= b <= mb,
    ;
    lemma_tdiv_abs(a * b, SCALE as int, ma * mb);
}

/// A bound on the dividend and a floor on the divisor bound the fixed-point
/// quotient.
pub proof fn lemma_fdiv_le(a: int, b: int, ma: int, bmin: int)
    requires
        0 <= ma,
        1 <= bmin <= b,
        -ma <= a <= ma,
    ensures
        -((ma * (SCALE as int)) / bmin) <= sp_fdiv(a, b) <= (ma * (SCALE as int)) / bmin,
{
    let s = SCALE as int;
    assert(-(ma * s) <= a * s <= ma * s) by (nonlinear_arith)
        requires
            0 <= ma,
            -ma <= a <= ma,
            s == SCALE as int,
    ;
    lemma_tdiv_abs(a * s, b, ma * s);
    lemma_div_is_ordered_by_denominator(ma * s, bmin, b);
}

/// Rescaling by one whole unit is exact: multiplying a fixed-point value by
/// `SCALE` (the number 1.0) returns it unchanged.
pub proof fn lemma_fmul_unit(b: int)
    ensures
        sp_fmul(SCALE as int, b) == b,
        sp_fmul(b, SCALE as int) == b,
{
    let s = SCALE as int;
    if b >= 0 {
        assert((b * s) / s == b) by (nonlinear_arith)
            requires
                s == SCALE as int,
                0 <= b,
        ;
    } else {
        assert(((-b) * s) / s == -b) by (nonlinear_arith)
            requires
                s == SCALE as int,
                b < 0,
        ;
        assert(-(b * s) == (-b) * s) by (nonlinear_arith);
        assert(-(s * b) == (-b) * s) by (nonlinear_arith);
    }
    assert(s * b == b * s) by (nonlinear_arith);
}

/// Multiplying by zero gives zero.
pub proof fn lemma_fmul_zero(a: int)
    ensures
        sp_fmul(a, 0) == 0,
        sp_fmul(0, a) == 0,
{
    assert(a * 0 == 0) by (nonlinear_arith);
    assert(0 * a == 0) by (nonlinear_arith);
    assert(tdiv(0, SCALE as int) == 0);
}

/// A square bound on the radicand bounds the square root.
pub proof fn lemma_sqrt_upper(n: int, b: int)
    requires
        0 <= n,
        0 <= b,
        n <= b * b,
    ensures
        sp_sqrt(n) <= b,
{
    lemma_sqrt_bracket(n);
    assert(sp_sqrt(n) <= b) by (nonlinear_arith)
        requires
            0 <= sp_sqrt(n),
            sp_sqrt(n) * sp_sqrt(n) <= n,
            0 <= b,
            n <= b * b,
    ;
}

/// A bound on the square gives a bound on the value.
pub proof fn lemma_sq_le_implies_le(a: int, n: int, n2: int)
    requires
        0 <= n,
        a * a <= n2,
        n2 < (n + 1) * (n + 1),
    ensures
        -n <= a <= n,
{
    if a > n || a < -n {
        assert((n + 1) * (n + 1) <= a * a) by (nonlinear_arith)
            requires
                0 <= n,
                a > n || a < -n,
        ;
    }
}

/// Dividing a rescaled component by a norm that bounds it yields at most one
/// whole unit in magnitude.
pub proof fn lemma_unit_div(vi: int, len: int)
    requires
        1 <= len,
        -len <= vi <= len,
    ensures
        -(SCALE as int) <= tdiv(vi * (SCALE as int), len) <= SCALE as int,
{
    let s = SCALE as int;
    assert(-(len * s) <= vi * s <= len * s) by (nonlinear_arith)
        requires
            1 <= len,
            -len <= vi <= len,
            s == 1_000_000_000,
    ;
    lemma_tdiv_abs(vi * s, len, len * s);
    vstd::arithmetic::div_mod::lemma_div_multiples_vanish(s, len);
}

/// Truncated division by a positive divisor, computed through unsigned
/// hardware division so that the rounding is toward zero on both signs.
pub fn tdiv_pos(p: i128, d: i128) -> (r: i128)
    requires
        1 <= d,
        -(i128::MAX as int) <= p,
    ensures
        r as int == tdiv(p as int, d as int),
{
    if p >= 0 {
        let q: u128 = (p as u128) / (d as u128);
        proof {
            lemma_div_is_ordered(p as int, i128::MAX as int, d as int);
            lemma_div_pos_is_pos(p as int, d as int);
        }
        q as i128
    } else {
        let np: i128 = -p;
        let q: u128 = (np as u128) / (d as u128);
        proof {
            lemma_div_is_ordered(np as int, i128::MAX as int, d as int);
            lemma_div_pos_is_pos(np as int, d as int);
        }
        -(q as i128)
    }
}

/// Fixed-point multiplication; the caller shows the plain product fits.
pub fn fmul(a: i128, b: i128) -> (r: i128)
    requires
        -(i128::MAX as int) <= (a as int) * (b as int) <= i128::MAX as int,
    ensures
        r as int == sp_fmul(a as int, b as int),
{
    let p: i128 = a * b;
    tdiv_pos(p, SCALE)
}

/// Fixed-point division by a positive divisor; the caller shows the rescaled
/// dividend fits.
pub fn fdivp(a: i128, b: i128) -> (r: i128)
    requires
        1 <= b,
        -(i128::MAX as int) <= (a as int) * (SCALE as int) <= i128::MAX as int,
    ensures
        r as int == sp_fdiv(a as int, b as int),
{
    let p: i128 = a * SCALE;
    tdiv_pos(p, b)
}

/// Clamp into a closed interval.
pub fn clamp(x: i128, lo: i128, hi: i128) -> (r: i128)
    requires
        lo <= hi,
    ensures
        r as int == sp_clamp(x as int, lo as int, hi as int),
{
    if x < lo {
        lo
    } else if x > hi {
        hi
    } else {
        x
    }
}

/// Integer square root by bisection.
pub fn isqrt(x: u128) -> (r: u128)
    ensures
        r as int == sp_sqrt(x as int),
        (r as int) * (r as int) <= x as int,
        (x as int) < ((r as int) + 1) * ((r as int) + 1),
{
    let mut lo: u128 = 0;
    let mut hi: u128 = 18446744073709551616u128;
    proof {
        assert((hi as int) * (hi as int) > x as int) by (nonlinear_arith)
            requires
                hi == 18446744073709551616u128,
                x <= u128::MAX,
        ;
    }
    while lo + 1 < hi
        invariant
            lo < hi,
            hi <= 18446744073709551616u128,
            (lo as int) * (lo as int) <= x as int,
            (x as int) < (hi as int) * (hi as int),
        decreases hi - lo,
    {
        let mid: u128 = lo + (hi - lo) / 2;
        proof {
            assert((mid as int) * (mid as int) <= u128::MAX as int) by (nonlinear_arith)
                requires
                    mid < 18446744073709551616u128,
            ;
        }
        if mid * mid <= x {
            lo = mid;
        } else {
            hi = mid;
        }
    }
    proof {
        lemma_sqrt_unique(x as int, lo as int);
    }
    lo
}

} // verus!
