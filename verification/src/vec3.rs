//! Fixed-point 3-vectors and the rotation primitive used by the orbit camera.
//!
//! Spec-level values are triples of unbounded integers, so every contract can
//! state the exact fixed-point result of an operation; the executable code is
//! proved to compute exactly those values without overflow.

use vstd::prelude::*;

verus! {

use vstd::math::abs;
use vstd::arithmetic::div_mod::lemma_div_by_multiple;
use crate::fx::FX_ONE;
use crate::fx::FX_FACTOR_BOUND;
use crate::fx::fx_mul;
use crate::fx::fx_mul_spec;
use crate::fx::fx_scale_div;
use crate::fx::fx_scale_div_spec;
use crate::fx::sqrt_floor;
use crate::fx::isqrt;
use crate::fx::lemma_sqrt_floor_mono;
use crate::fx::lemma_sqrt_floor_pos;
use crate::fx::lemma_sqrt_floor_square;
use crate::fx::lemma_fx_mul_bound;

/// A 3-vector of 16.16 fixed-point scalars.
#[derive(Clone, Copy, Debug, PartialEq, Eq, Structural)]
pub struct Vec3Fx {
    pub x: i64,
    pub y: i64,
    pub z: i64,
}

impl Vec3Fx {
    /// Build a vector from its three fixed-point components.
    pub fn new(x: i64, y: i64, z: i64) -> (v: Vec3Fx)
        ensures
            v.x == x && v.y == y && v.z == z,
    {
        Vec3Fx { x, y, z }
    }

    /// The zero vector.
    pub fn zero() -> (v: Vec3Fx)
        ensures
            v.x == 0 && v.y == 0 && v.z == 0,
    {
        Vec3Fx { x: 0, y: 0, z: 0 }
    }
}

/// The mathematical value of a vector: a triple of unbounded integers.
pub open spec fn v3(v: Vec3Fx) -> (int, int, int) {
    (v.x as int, v.y as int, v.z as int)
}

/// Sum of the component magnitudes.
pub open spec fn l1(v: (int, int, int)) -> int {
    abs(v.0) as int + abs(v.1) as int + abs(v.2) as int
}

/// Every component has magnitude at most `b`.
pub open spec fn bounded3(v: (int, int, int), b: int) -> bool {
    abs(v.0) <= b && abs(v.1) <= b && abs(v.2) <= b
}

/// Componentwise sum.
pub open spec fn add3(a: (int, int, int), b: (int, int, int)) -> (int, int, int) {
    (a.0 + b.0, a.1 + b.1, a.2 + b.2)
}

/// Componentwise difference.
pub open spec fn sub3(a: (int, int, int), b: (int, int, int)) -> (int, int, int) {
    (a.0 - b.0, a.1 - b.1, a.2 - b.2)
}

/// Fixed-point scalar multiple.
pub open spec fn scale3(v: (int, int, int), k: int) -> (int, int, int) {
    (fx_mul_spec(v.0, k), fx_mul_spec(v.1, k), fx_mul_spec(v.2, k))
}

/// Fixed-point cross product.
pub open spec fn cross3(a: (int, int, int), b: (int, int, int)) -> (int, int, int) {
    (
        fx_mul_spec(a.1, b.2) - fx_mul_spec(a.2, b.1),
        fx_mul_spec(a.2, b.0) - fx_mul_spec(a.0, b.2),
        fx_mul_spec(a.0, b.1) - fx_mul_spec(a.1, b.0),
    )
}

/// Fixed-point dot product.
pub open spec fn dot3(a: (int, int, int), b: (int, int, int)) -> int {
    fx_mul_spec(a.0, b.0) + fx_mul_spec(a.1, b.1) + fx_mul_spec(a.2, b.2)
}

/// Unscaled sum of squared components.
pub open spec fn norm_sq3(v: (int, int, int)) -> int {
    v.0 * v.0 + v.1 * v.1 + v.2 * v.2
}

/// Fixed-point magnitude: the rounded-down square root of the squared norm.
pub open spec fn mag3(v: (int, int, int)) -> int {
    sqrt_floor(norm_sq3(v) as nat) as int
}

/// Fixed-point normalization: each component divided by the magnitude.
pub open spec fn normalize3(v: (int, int, int)) -> (int, int, int) {
    (
        fx_scale_div_spec(v.0, mag3(v)),
        fx_scale_div_spec(v.1, mag3(v)),
        fx_scale_div_spec(v.2, mag3(v)),
    )
}

/// Rodrigues rotation of `v` about the unit axis `k` by the angle whose
/// cosine and sine are `c` and `s`:
/// `v*c + (k x v)*s + k*(k . v)*(1 - c)`, all in fixed point.
pub open spec fn rotate3(k: (int, int, int), c: int, s: int, v: (int, int, int)) -> (
    int,
    int,
    int,
) {
    let t = FX_ONE - c;
    let cr = cross3(k, v);
    let dt = fx_mul_spec(dot3(k, v), t);
    (
        fx_mul_spec(c, v.0) + fx_mul_spec(s, cr.0) + fx_mul_spec(k.0, dt),
        fx_mul_spec(c, v.1) + fx_mul_spec(s, cr.1) + fx_mul_spec(k.1, dt),
        fx_mul_spec(c, v.2) + fx_mul_spec(s, cr.2) + fx_mul_spec(k.2, dt),
    )
}

/// A product with a factor of magnitude at most `FX_ONE` cannot grow.
proof fn lemma_fx_mul_contract(a: int, b: int)
    requires
        abs(a) <= FX_ONE as int,
    ensures
        abs(fx_mul_spec(a, b)) <= abs(b),
{
    lemma_fx_mul_bound(a, b, FX_ONE as int, abs(b) as int);
    lemma_div_by_multiple(abs(b) as int, FX_ONE as int);
    assert(FX_ONE as int * abs(b) as int == abs(b) as int * FX_ONE as int);
}

/// Componentwise vector sum.
pub fn vec_add(a: Vec3Fx, b: Vec3Fx) -> (r: Vec3Fx)
    requires
        bounded3(v3(a), 0x2000_0000_0000_0000),
        bounded3(v3(b), 0x2000_0000_0000_0000),
    ensures
        v3(r) == add3(v3(a), v3(b)),
{
    Vec3Fx { x: a.x + b.x, y: a.y + b.y, z: a.z + b.z }
}

/// Componentwise vector difference.
pub fn vec_sub(a: Vec3Fx, b: Vec3Fx) -> (r: Vec3Fx)
    requires
        bounded3(v3(a), 0x2000_0000_0000_0000),
        bounded3(v3(b), 0x2000_0000_0000_0000),
    ensures
        v3(r) == sub3(v3(a), v3(b)),
{
    Vec3Fx { x: a.x - b.x, y: a.y - b.y, z: a.z - b.z }
}

/// Fixed-point scalar multiple of a vector.
pub fn vec_scale(v: Vec3Fx, k: i64) -> (r: Vec3Fx)
    requires
        bounded3(v3(v), FX_FACTOR_BOUND as int),
        -FX_FACTOR_BOUND <= k <= FX_FACTOR_BOUND,
    ensures
        v3(r) == scale3(v3(v), k as int),
{
    Vec3Fx { x: fx_mul(v.x, k), y: fx_mul(v.y, k), z: fx_mul(v.z, k) }
}

/// Fixed-point cross product of two vectors.
pub fn vec_cross(a: Vec3Fx, b: Vec3Fx) -> (r: Vec3Fx)
    requires
        bounded3(v3(a), 0x100_0000),
        bounded3(v3(b), FX_FACTOR_BOUND as int),
    ensures
        v3(r) == cross3(v3(a), v3(b)),
        bounded3(v3(r), 0x2_0000_0000_0000),
{
    proof {
        lemma_fx_mul_bound(a.y as int, b.z as int, 0x100_0000, FX_FACTOR_BOUND as int);
        lemma_fx_mul_bound(a.z as int, b.y as int, 0x100_0000, FX_FACTOR_BOUND as int);
        lemma_fx_mul_bound(a.z as int, b.x as int, 0x100_0000, FX_FACTOR_BOUND as int);
        lemma_fx_mul_bound(a.x as int, b.z as int, 0x100_0000, FX_FACTOR_BOUND as int);
        lemma_fx_mul_bound(a.x as int, b.y as int, 0x100_0000, FX_FACTOR_BOUND as int);
        lemma_fx_mul_bound(a.y as int, b.x as int, 0x100_0000, FX_FACTOR_BOUND as int);
    }
    let rx: i64 = fx_mul(a.y, b.z) - fx_mul(a.z, b.y);
    let ry: i64 = fx_mul(a.z, b.x) - fx_mul(a.x, b.z);
    let rz: i64 = fx_mul(a.x, b.y) - fx_mul(a.y, b.x);
    Vec3Fx { x: rx, y: ry, z: rz }
}

/// Fixed-point dot product of a unit-scale vector with another vector.
pub fn vec_dot(a: Vec3Fx, b: Vec3Fx) -> (d: i64)
    requires
        bounded3(v3(a), FX_ONE as int),
        bounded3(v3(b), FX_FACTOR_BOUND as int),
    ensures
        d == dot3(v3(a), v3(b)),
        abs(d as int) <= l1(v3(b)),
{
    proof {
        lemma_fx_mul_contract(a.x as int, b.x as int);
        lemma_fx_mul_contract(a.y as int, b.y as int);
        lemma_fx_mul_contract(a.z as int, b.z as int);
    }
    fx_mul(a.x, b.x) + fx_mul(a.y, b.y) + fx_mul(a.z, b.z)
}

/// Normalize a nonzero vector to unit length (components in
/// `[-FX_ONE, FX_ONE]`).
pub fn vec_normalize(v: Vec3Fx) -> (r: Vec3Fx)
    requires
        bounded3(v3(v), 0x1000_0000_0000_0000),
        v3(v) != (0int, 0int, 0int),
    ensures
        v3(r) == normalize3(v3(v)),
        bounded3(v3(r), FX_ONE as int),
{
    proof {
        assert((v.x as int) * (v.x as int) == abs(v.x as int) * abs(v.x as int))
            by (nonlinear_arith);
        assert((v.y as int) * (v.y as int) == abs(v.y as int) * abs(v.y as int))
            by (nonlinear_arith);
        assert((v.z as int) * (v.z as int) == abs(v.z as int) * abs(v.z as int))
            by (nonlinear_arith);
        assert(abs(v.x as int) * abs(v.x as int) <= 0x1000_0000_0000_0000 * 0x1000_0000_0000_0000)
            by (nonlinear_arith)
            requires
                abs(v.x as int) <= 0x1000_0000_0000_0000,
        ;
        assert(abs(v.y as int) * abs(v.y as int) <= 0x1000_0000_0000_0000 * 0x1000_0000_0000_0000)
            by (nonlinear_arith)
            requires
                abs(v.y as int) <= 0x1000_0000_0000_0000,
        ;
        assert(abs(v.z as int) * abs(v.z as int) <= 0x1000_0000_0000_0000 * 0x1000_0000_0000_0000)
            by (nonlinear_arith)
            requires
                abs(v.z as int) <= 0x1000_0000_0000_0000,
        ;
    }
    let xx: u128 = (v.x as i128 * v.x as i128) as u128;
    let yy: u128 = (v.y as i128 * v.y as i128) as u128;
    let zz: u128 = (v.z as i128 * v.z as i128) as u128;
    let n: u128 = xx + yy + zz;
    proof {
        if v.x != 0 {
            assert(abs(v.x as int) * abs(v.x as int) >= 1) by (nonlinear_arith)
                requires
                    abs(v.x as int) >= 1,
            ;
        } else if v.y != 0 {
            assert(abs(v.y as int) * abs(v.y as int) >= 1) by (nonlinear_arith)
                requires
                    abs(v.y as int) >= 1,
            ;
        } else {
            assert(v.z != 0);
            assert(abs(v.z as int) * abs(v.z as int) >= 1) by (nonlinear_arith)
                requires
                    abs(v.z as int) >= 1,
            ;
        }
        assert(n > 0);
        assert(n as int == norm_sq3(v3(v)));
    }
    let mag: u64 = isqrt(n);
    proof {
        lemma_sqrt_floor_pos(n as nat);
        lemma_sqrt_floor_square(abs(v.x as int));
        lemma_sqrt_floor_mono(abs(v.x as int) * abs(v.x as int), n as nat);
        lemma_sqrt_floor_square(abs(v.y as int));
        lemma_sqrt_floor_mono(abs(v.y as int) * abs(v.y as int), n as nat);
        lemma_sqrt_floor_square(abs(v.z as int));
        lemma_sqrt_floor_mono(abs(v.z as int) * abs(v.z as int), n as nat);
    }
    let rx: i64 = fx_scale_div(v.x, mag);
    let ry: i64 = fx_scale_div(v.y, mag);
    let rz: i64 = fx_scale_div(v.z, mag);
    Vec3Fx { x: rx, y: ry, z: rz }
}

/// A unit-axis cross product stays within the input's total magnitude.
proof fn lemma_unit_cross_bound(k: (int, int, int), v: (int, int, int))
    requires
        bounded3(k, FX_ONE as int),
    ensures
        abs(cross3(k, v).0) <= abs(v.1) + abs(v.2),
        abs(cross3(k, v).1) <= abs(v.0) + abs(v.2),
        abs(cross3(k, v).2) <= abs(v.0) + abs(v.1),
{
    lemma_fx_mul_contract(k.1, v.2);
    lemma_fx_mul_contract(k.2, v.1);
    lemma_fx_mul_contract(k.2, v.0);
    lemma_fx_mul_contract(k.0, v.2);
    lemma_fx_mul_contract(k.0, v.1);
    lemma_fx_mul_contract(k.1, v.0);
}

/// A unit-axis dot product stays within the input's total magnitude.
proof fn lemma_unit_dot_bound(k: (int, int, int), v: (int, int, int))
    requires
        bounded3(k, FX_ONE as int),
    ensures
        abs(dot3(k, v)) <= l1(v),
{
    lemma_fx_mul_contract(k.0, v.0);
    lemma_fx_mul_contract(k.1, v.1);
    lemma_fx_mul_contract(k.2, v.2);
}

/// The `(k . v) * (1 - c)` factor of the Rodrigues formula is at most twice
/// the input's total magnitude.
proof fn lemma_dt_bound(k: (int, int, int), c: int, v: (int, int, int))
    requires
        bounded3(k, FX_ONE as int),
        abs(c) <= FX_ONE as int,
    ensures
        abs(fx_mul_spec(dot3(k, v), FX_ONE - c)) <= 2 * l1(v),
{
    lemma_unit_dot_bound(k, v);
    let d = dot3(k, v);
    let t = FX_ONE - c;
    lemma_fx_mul_bound(d, t, l1(v), 2 * FX_ONE as int);
    assert(l1(v) * (2 * FX_ONE as int) == (2 * l1(v)) * FX_ONE as int) by (nonlinear_arith);
    lemma_div_by_multiple(2 * l1(v), FX_ONE as int);
}

/// Magnitude bounds on the three summands of each Rodrigues component.
proof fn lemma_rotate_term_bounds(k: (int, int, int), c: int, s: int, v: (int, int, int))
    requires
        bounded3(k, FX_ONE as int),
        abs(c) <= FX_ONE as int,
        abs(s) <= FX_ONE as int,
    ensures
        abs(fx_mul_spec(c, v.0)) <= abs(v.0),
        abs(fx_mul_spec(c, v.1)) <= abs(v.1),
        abs(fx_mul_spec(c, v.2)) <= abs(v.2),
        abs(fx_mul_spec(s, cross3(k, v).0)) <= l1(v),
        abs(fx_mul_spec(s, cross3(k, v).1)) <= l1(v),
        abs(fx_mul_spec(s, cross3(k, v).2)) <= l1(v),
        abs(fx_mul_spec(k.0, fx_mul_spec(dot3(k, v), FX_ONE - c))) <= 2 * l1(v),
        abs(fx_mul_spec(k.1, fx_mul_spec(dot3(k, v), FX_ONE - c))) <= 2 * l1(v),
        abs(fx_mul_spec(k.2, fx_mul_spec(dot3(k, v), FX_ONE - c))) <= 2 * l1(v),
{
    lemma_unit_cross_bound(k, v);
    lemma_dt_bound(k, c, v);
    let cr = cross3(k, v);
    let dt = fx_mul_spec(dot3(k, v), FX_ONE - c);
    lemma_fx_mul_contract(c, v.0);
    lemma_fx_mul_contract(c, v.1);
    lemma_fx_mul_contract(c, v.2);
    lemma_fx_mul_contract(s, cr.0);
    lemma_fx_mul_contract(s, cr.1);
    lemma_fx_mul_contract(s, cr.2);
    lemma_fx_mul_contract(k.0, dt);
    lemma_fx_mul_contract(k.1, dt);
    lemma_fx_mul_contract(k.2, dt);
}

/// Each component of a unit-axis rotation is at most four times the input's
/// total magnitude.
proof fn lemma_rotate_bound(k: (int, int, int), c: int, s: int, v: (int, int, int))
    requires
        bounded3(k, FX_ONE as int),
        abs(c) <= FX_ONE as int,
        abs(s) <= FX_ONE as int,
    ensures
        abs(rotate3(k, c, s, v).0) <= 4 * l1(v),
        abs(rotate3(k, c, s, v).1) <= 4 * l1(v),
        abs(rotate3(k, c, s, v).2) <= 4 * l1(v),
{
    lemma_rotate_term_bounds(k, c, s, v);
}

/// Rotate `v` about the unit axis `k` by the angle with cosine `c` and
/// sine `s`, by the Rodrigues formula. The result's components grow by at
/// most a factor of four of the input's total magnitude.
#[verifier::rlimit(60)]
pub fn vec_rotate(k: Vec3Fx, c: i64, s: i64, v: Vec3Fx) -> (r: Vec3Fx)
    requires
        bounded3(v3(k), FX_ONE as int),
        -FX_ONE <= c <= FX_ONE,
        -FX_ONE <= s <= FX_ONE,
        l1(v3(v)) <= 0x40_0000_0000,
    ensures
        v3(r) == rotate3(v3(k), c as int, s as int, v3(v)),
        bounded3(v3(r), 4 * l1(v3(v))),
{
    proof {
        lemma_unit_cross_bound(v3(k), v3(v));
        lemma_dt_bound(v3(k), c as int, v3(v));
        lemma_rotate_term_bounds(v3(k), c as int, s as int, v3(v));
        lemma_rotate_bound(v3(k), c as int, s as int, v3(v));
    }
    let cr: Vec3Fx = vec_cross(k, v);
    let d: i64 = vec_dot(k, v);
    let t: i64 = FX_ONE - c;
    let dt: i64 = fx_mul(d, t);
    let rx: i64 = fx_mul(c, v.x) + fx_mul(s, cr.x) + fx_mul(k.x, dt);
    let ry: i64 = fx_mul(c, v.y) + fx_mul(s, cr.y) + fx_mul(k.y, dt);
    let rz: i64 = fx_mul(c, v.z) + fx_mul(s, cr.z) + fx_mul(k.z, dt);
    Vec3Fx { x: rx, y: ry, z: rz }
}

} // verus!
