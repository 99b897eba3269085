//! Fixed-point arithmetic helpers shared by the simulation modules.
//!
//! The game's quantities are integers counting milli steps, and all of its
//! scaling rules round toward zero, the way the hardware division of a
//! systems language does. `div_trunc` is that rounding; `sqrt_floor` backs
//! the vector normalisation used when fragments separate from an impact.

use vstd::prelude::*;

verus! {

/// Quotient of `a` by `b`, rounded toward zero.
pub open spec fn div_trunc(a: int, b: int) -> int {
    if a >= 0 {
        a / b
    } else {
        -((-a) / b)
    }
}

/// `v` forced into `[lo, hi]`.
pub open spec fn clamp(v: int, lo: int, hi: int) -> int {
    if v < lo {
        lo
    } else if v > hi {
        hi
    } else {
        v
    }
}

/// Executable truncating division on the fixed-point representation.
pub fn div_trunc_i64(a: i64, b: i64) -> (r: i64)
    requires
        b > 0,
        a > i64::MIN,
    ensures
        r == div_trunc(a as int, b as int),
{
    if a >= 0 {
        let q: u64 = (a as u64) / (b as u64);
        q as i64
    } else {
        let m: u64 = ((-a) as u64) / (b as u64);
        -(m as i64)
    }
}

/// A bound on the operand gives a bound on the truncating quotient.
pub proof fn lemma_div_trunc_bounds(a: int, b: int, m: int)
    requires
        b > 0,
        0 <= m,
        -m <= a <= m,
    ensures
        -(m / b) <= div_trunc(a, b) <= m / b,
        -m <= div_trunc(a, b) <= m,
{
    vstd::arithmetic::div_mod::lemma_div_pos_is_pos(m, b);
    if a >= 0 {
        vstd::arithmetic::div_mod::lemma_div_pos_is_pos(a, b);
        vstd::arithmetic::div_mod::lemma_div_is_ordered(a, m, b);
    } else {
        vstd::arithmetic::div_mod::lemma_div_pos_is_pos(-a, b);
        vstd::arithmetic::div_mod::lemma_div_is_ordered(-a, m, b);
    }
    vstd::arithmetic::div_mod::lemma_div_is_ordered_by_denominator(m, 1, b);
    vstd::arithmetic::div_mod::lemma_div_basics(m);
}

/// Truncating division is odd in its operand: negating the operand
/// negates the quotient.
pub proof fn lemma_div_trunc_neg(a: int, b: int)
    requires
        b > 0,
    ensures
        div_trunc(-a, b) == -div_trunc(a, b),
{
    if a > 0 {
        assert(div_trunc(-a, b) == -(a / b));
    } else if a == 0 {
        assert(0int / b == 0) by {
            vstd::arithmetic::div_mod::lemma_div_of0(b);
        }
    }
}

/// Scaling a fraction `f` of at most `b` parts onto `k` keeps the result
/// within `[-k, k]`.
pub proof fn lemma_div_trunc_scale_bound(k: int, f: int, b: int)
    requires
        b > 0,
        0 <= k,
        -b <= f <= b,
    ensures
        -k <= div_trunc(k * f, b) <= k,
{
    assert(-(k * b) <= k * f <= k * b) by (nonlinear_arith)
        requires
            0 <= k,
            -b <= f <= b,
    ;
    assert(k * b >= 0) by (nonlinear_arith)
        requires
            0 <= k,
            b > 0,
    ;
    lemma_div_trunc_bounds(k * f, b, k * b);
    vstd::arithmetic::div_mod::lemma_div_by_multiple(k, b);
}

/// The integer square root, defined by counting up: the largest `r` with
/// `r * r <= n`.
pub open spec fn sqrt_floor(n: nat) -> nat
    decreases n,
{
    if n == 0 {
        0
    } else {
        let p = sqrt_floor((n - 1) as nat);
        if (p + 1) * (p + 1) <= n {
            p + 1
        } else {
            p
        }
    }
}

/// `sqrt_floor(n)` really is the floor of the square root of `n`.
pub proof fn lemma_sqrt_floor_bounds(n: nat)
    ensures
        sqrt_floor(n) * sqrt_floor(n) <= n,
        n < (sqrt_floor(n) + 1) * (sqrt_floor(n) + 1),
    decreases n,
{
    if n == 0 {
        assert(sqrt_floor(n) == 0);
        assert(sqrt_floor(n) * sqrt_floor(n) <= n && n < (sqrt_floor(n) + 1) * (sqrt_floor(n)
            + 1)) by (nonlinear_arith)
            requires
                n == 0,
                sqrt_floor(n) == 0,
        ;
    } else {
        lemma_sqrt_floor_bounds((n - 1) as nat);
        let p = sqrt_floor((n - 1) as nat);
        if (p + 1) * (p + 1) <= n {
            assert(sqrt_floor(n) == p + 1);
            assert(sqrt_floor(n) * sqrt_floor(n) <= n && n < (sqrt_floor(n) + 1) * (sqrt_floor(n)
                + 1)) by (nonlinear_arith)
                requires
                    sqrt_floor(n) == p + 1,
                    (p + 1) * (p + 1) <= n,
                    (n - 1) < (p + 1) * (p + 1),
                    p >= 0,
            ;
        } else {
            assert(sqrt_floor(n) == p);
            assert(sqrt_floor(n) * sqrt_floor(n) <= n && n < (sqrt_floor(n) + 1) * (sqrt_floor(n)
                + 1)) by (nonlinear_arith)
                requires
                    sqrt_floor(n) == p,
                    p * p <= n - 1,
                    n < (p + 1) * (p + 1),
                    p >= 0,
            ;
        }
    }
}

/// Any `r` whose square brackets `n` is the floor square root of `n`.
pub proof fn lemma_sqrt_floor_unique(n: nat, r: nat)
    requires
        r * r <= n,
        n < (r + 1) * (r + 1),
    ensures
        r == sqrt_floor(n),
{
    lemma_sqrt_floor_bounds(n);
    let s = sqrt_floor(n);
    assert(r == s) by (nonlinear_arith)
        requires
            r * r <= n,
            n < (r + 1) * (r + 1),
            s * s <= n,
            n < (s + 1) * (s + 1),
            r >= 0,
            s >= 0,
    ;
}

/// Executable integer square root, by bisection over the answer.
pub fn isqrt(n: u64) -> (r: u64)
    ensures
        r == sqrt_floor(n as nat),
{
    if n == 0 {
        proof {
            assert(0 * 0 <= n as nat && (n as nat) < (0 + 1) * (0 + 1)) by (nonlinear_arith)
                requires
                    n == 0,
            ;
            lemma_sqrt_floor_unique(n as nat, 0);
        }
        return 0;
    }
    let mut lo: u64 = 0;
    let mut hi: u64 = 0x1_0000_0000;
    proof {
        assert((lo as int) * (lo as int) <= n as int && (n as int) < (hi as int) * (hi
            as int)) by (nonlinear_arith)
            requires
                lo == 0,
                hi == 0x1_0000_0000,
                0 <= (n as int) < 0x1_0000_0000_0000_0000,
        ;
    }
    while lo + 1 < hi
        invariant
            lo < hi <= 0x1_0000_0000,
            (lo as int) * (lo as int) <= n as int,
            (n as int) < (hi as int) * (hi as int),
        decreases hi - lo,
    {
        let mid: u64 = lo + (hi - lo) / 2;
        proof {
            assert((mid as int) * (mid as int) <= 0xFFFF_FFFE_0000_0001) by (nonlinear_arith)
                requires
                    0 <= (mid as int) <= 0xFFFF_FFFF,
            ;
        }
        let sq: u64 = mid * mid;
        if sq <= n {
            lo = mid;
        } else {
            hi = mid;
        }
    }
    proof {
        assert((n as int) < ((lo as int) + 1) * ((lo as int) + 1)) by (nonlinear_arith)
            requires
                (n as int) < (hi as int) * (hi as int),
                (hi as int) == (lo as int) + 1,
        ;
        lemma_sqrt_floor_unique(n as nat, lo as nat);
    }
    lo
}

} // verus!
