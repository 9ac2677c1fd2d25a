//! 16.16 fixed-point scalars: the crate's substitute for floating point.
//!
//! A scalar holds `value * FX_ONE` as an `i64`. Products and quotients are
//! rounded toward zero; every operation's contract states the exact rounded
//! result, so callers reason about fixed-point values with no approximation.

use vstd::prelude::*;

verus! {

use vstd::math::abs;
use vstd::arithmetic::div_mod::lemma_div_is_ordered;
use vstd::arithmetic::div_mod::lemma_div_by_multiple;
use vstd::arithmetic::div_mod::lemma_div_pos_is_pos;

/// One whole unit in 16.16 fixed point.
pub const FX_ONE: i64 = 65536;

/// Largest magnitude `fx_mul` accepts for either factor (2^39), chosen so the
/// scaled product always fits an `i64`.
pub const FX_FACTOR_BOUND: i64 = 0x80_0000_0000;

/// The fixed-point product: the wide product scaled back down by `FX_ONE`,
/// rounded toward zero. Kept opaque so large formulas over products stay
/// tractable; `lemma_fx_mul_bound` exposes the only fact callers need.
#[verifier::opaque]
pub open spec fn fx_mul_spec(a: int, b: int) -> int {
    let m = (abs(a) as int * abs(b) as int) / (FX_ONE as int);
    if (a < 0) == (b < 0) {
        m
    } else {
        -m
    }
}

/// Multiply two fixed-point scalars, scaling the product back down.
pub fn fx_mul(a: i64, b: i64) -> (r: i64)
    requires
        -FX_FACTOR_BOUND <= a <= FX_FACTOR_BOUND,
        -FX_FACTOR_BOUND <= b <= FX_FACTOR_BOUND,
    ensures
        r == fx_mul_spec(a as int, b as int),
{
    proof {
        reveal(fx_mul_spec);
    }
    let neg: bool = (a < 0) != (b < 0);
    let ua: u128 = if a >= 0 {
        a as u128
    } else {
        (-(a as i128)) as u128
    };
    let ub: u128 = if b >= 0 {
        b as u128
    } else {
        (-(b as i128)) as u128
    };
    assert(ua == abs(a as int));
    assert(ub == abs(b as int));
    assert(ua * ub <= 0x80_0000_0000 * 0x80_0000_0000) by (nonlinear_arith)
        requires
            ua <= 0x80_0000_0000,
            ub <= 0x80_0000_0000,
    ;
    let p: u128 = ua * ub;
    let q: u128 = p / 65536;
    proof {
        lemma_div_is_ordered(p as int, 0x80_0000_0000int * 0x80_0000_0000int, 65536);
    }
    assert(q <= 0x4000_0000_0000_0000);
    if neg {
        (-(q as i128)) as i64
    } else {
        q as i64
    }
}

/// The magnitude of a fixed-point product is bounded by the scaled product of
/// the factor bounds.
pub proof fn lemma_fx_mul_bound(a: int, b: int, m: int, n: int)
    requires
        abs(a) <= m,
        abs(b) <= n,
    ensures
        abs(fx_mul_spec(a, b)) <= (m * n) / (FX_ONE as int),
{
    reveal(fx_mul_spec);
    assert(abs(a) as int * abs(b) as int <= m * n) by (nonlinear_arith)
        requires
            abs(a) <= m,
            abs(b) <= n,
    ;
    lemma_div_is_ordered(abs(a) as int * abs(b) as int, m * n, FX_ONE as int);
    lemma_div_pos_is_pos(abs(a) as int * abs(b) as int, FX_ONE as int);
}

/// Multiplying by zero gives zero.
pub proof fn lemma_fx_mul_zero(x: int)
    ensures
        fx_mul_spec(0, x) == 0,
        fx_mul_spec(x, 0) == 0,
{
    reveal(fx_mul_spec);
    assert(abs(0) == 0);
    assert((abs(x) as int) * 0 == 0) by (nonlinear_arith);
    assert(0int * (abs(x) as int) == 0) by (nonlinear_arith);
}

/// Multiplying by the fixed-point unit is exact.
pub proof fn lemma_fx_mul_unit(x: int)
    ensures
        fx_mul_spec(FX_ONE as int, x) == x,
        fx_mul_spec(x, FX_ONE as int) == x,
{
    reveal(fx_mul_spec);
    lemma_div_by_multiple(abs(x) as int, FX_ONE as int);
    assert((FX_ONE as int) * (abs(x) as int) == (abs(x) as int) * (FX_ONE as int))
        by (nonlinear_arith);
}

/// Integer square root, rounded down.
pub open spec fn sqrt_floor(n: nat) -> nat
    decreases n,
{
    if n == 0 {
        0
    } else {
        let r = sqrt_floor((n - 1) as nat);
        if (r + 1) * (r + 1) <= n {
            r + 1
        } else {
            r
        }
    }
}

/// `sqrt_floor` really is the rounded-down square root.
pub proof fn lemma_sqrt_floor(n: nat)
    ensures
        sqrt_floor(n) * sqrt_floor(n) <= n,
        n < (sqrt_floor(n) + 1) * (sqrt_floor(n) + 1),
    decreases n,
{
    let s = sqrt_floor(n);
    if n == 0 {
        assert(s == 0);
        assert(s * s <= n && n < (s + 1) * (s + 1)) by (nonlinear_arith)
            requires
                s == 0,
                n == 0,
        ;
    } else {
        lemma_sqrt_floor((n - 1) as nat);
        let r = sqrt_floor((n - 1) as nat);
        assert(r * r <= n - 1 < (r + 1) * (r + 1));
        if (r + 1) * (r + 1) <= n {
            assert(s == r + 1);
            assert(s * s <= n && n < (s + 1) * (s + 1)) by (nonlinear_arith)
                requires
                    r >= 0,
                    s == r + 1,
                    (r + 1) * (r + 1) <= n,
                    n - 1 < (r + 1) * (r + 1),
            ;
        } else {
            assert(s == r);
            assert(s * s <= n && n < (s + 1) * (s + 1)) by (nonlinear_arith)
                requires
                    r >= 0,
                    s == r,
                    r * r <= n - 1,
                    n >= 1,
                    !((r + 1) * (r + 1) <= n),
            ;
        }
    }
}

/// Any witness of the square-root bracketing equals `sqrt_floor`.
pub proof fn lemma_sqrt_floor_unique(n: nat, r: nat)
    requires
        r * r <= n,
        n < (r + 1) * (r + 1),
    ensures
        r == sqrt_floor(n),
{
    lemma_sqrt_floor(n);
    let s = sqrt_floor(n);
    if r < s {
        assert((r + 1) * (r + 1) <= s * s) by (nonlinear_arith)
            requires
                r + 1 <= s,
        ;
    } else if s < r {
        assert((s + 1) * (s + 1) <= r * r) by (nonlinear_arith)
            requires
                s + 1 <= r,
        ;
    }
}

/// A positive number has a positive rounded-down square root.
pub proof fn lemma_sqrt_floor_pos(n: nat)
    requires
        n >= 1,
    ensures
        sqrt_floor(n) >= 1,
{
    lemma_sqrt_floor(n);
    if sqrt_floor(n) == 0 {
        assert((sqrt_floor(n) + 1) * (sqrt_floor(n) + 1) == 1) by (nonlinear_arith)
            requires
                sqrt_floor(n) == 0,
        ;
    }
}

/// `sqrt_floor` is monotonic.
pub proof fn lemma_sqrt_floor_mono(m: nat, n: nat)
    requires
        m <= n,
    ensures
        sqrt_floor(m) <= sqrt_floor(n),
{
    lemma_sqrt_floor(m);
    lemma_sqrt_floor(n);
    let a = sqrt_floor(m);
    let b = sqrt_floor(n);
    if b < a {
        assert((b + 1) * (b + 1) <= a * a) by (nonlinear_arith)
            requires
                b + 1 <= a,
        ;
    }
}

/// The rounded-down square root of a perfect square is exact.
pub proof fn lemma_sqrt_floor_square(a: nat)
    ensures
        sqrt_floor(a * a) == a,
{
    assert(a * a < (a + 1) * (a + 1)) by (nonlinear_arith);
    lemma_sqrt_floor_unique(a * a, a);
}

/// Compute the rounded-down integer square root by bisection.
pub fn isqrt(n: u128) -> (r: u64)
    ensures
        r == sqrt_floor(n as nat),
{
    let mut lo: u128 = 0;
    let mut hi: u128 = 0x1_0000_0000_0000_0000;
    assert((0x1_0000_0000_0000_0000 as int) * (0x1_0000_0000_0000_0000 as int) > n as int);
    while lo + 1 < hi
        invariant
            lo < hi <= 0x1_0000_0000_0000_0000,
            (lo as int) * (lo as int) <= n as int,
            (n as int) < (hi as int) * (hi as int),
        decreases hi - lo,
    {
        let mid: u128 = lo + (hi - lo) / 2;
        assert(lo < mid < hi);
        assert((mid as int) * (mid as int) < 0x1_0000_0000_0000_0000_0000_0000_0000_0000)
            by (nonlinear_arith)
            requires
                mid < 0x1_0000_0000_0000_0000,
        ;
        if mid * mid <= n {
            lo = mid;
        } else {
            hi = mid;
        }
    }
    proof {
        lemma_sqrt_floor_unique(n as nat, lo as nat);
    }
    lo as u64
}

/// Fixed-point quotient of a scalar by a positive magnitude, rounded toward
/// zero: `x * FX_ONE / m`.
pub open spec fn fx_scale_div_spec(x: int, m: int) -> int {
    let q = (abs(x) as int * FX_ONE as int) / m;
    if x < 0 {
        -q
    } else {
        q
    }
}

/// Divide a fixed-point scalar by a magnitude at least as large, yielding a
/// value in `[-FX_ONE, FX_ONE]`.
pub fn fx_scale_div(x: i64, m: u64) -> (r: i64)
    requires
        m > 0,
        abs(x as int) <= m as int,
    ensures
        r == fx_scale_div_spec(x as int, m as int),
        -FX_ONE <= r <= FX_ONE,
{
    let ux: u128 = if x >= 0 {
        x as u128
    } else {
        (-(x as i128)) as u128
    };
    assert(ux == abs(x as int));
    let q: u128 = (ux * 65536) / (m as u128);
    proof {
        assert(ux * 65536 <= (m as int) * 65536) by (nonlinear_arith)
            requires
                ux <= m as int,
        ;
        lemma_div_is_ordered((ux * 65536) as int, (m as int) * 65536, m as int);
        lemma_div_by_multiple(65536, m as int);
        lemma_div_pos_is_pos((ux * 65536) as int, m as int);
    }
    assert(q <= 65536);
    if x < 0 {
        (-(q as i128)) as i64
    } else {
        q as i64
    }
}

} // verus!
