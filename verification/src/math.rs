//! Fixed-point scalars, vectors and quaternions.
//!
//! A scalar is an `i64` counting units of `1 / SCALE`. Keyframe times and
//! keyframe values are kept within `TIME_LIMIT` and `VAL_LIMIT` so that every
//! product formed while interpolating fits in an `i64`.

use vstd::arithmetic::div_mod::{lemma_div_multiples_vanish, lemma_div_of0};
use vstd::prelude::*;

verus! {

/// Number of fixed-point units per 1.0.
pub const SCALE: i64 = 65536;

/// Largest admissible keyframe time (about 16384 seconds).
pub const TIME_LIMIT: i64 = 1073741824;

/// Largest admissible magnitude of a keyframe value component.
pub const VAL_LIMIT: i64 = 1073741824;

/// A fixed-point time value: within `[0, TIME_LIMIT]`.
pub open spec fn time_ok(t: i64) -> bool {
    0 <= t <= TIME_LIMIT
}

/// A fixed-point value component: within `[-VAL_LIMIT, VAL_LIMIT]`.
pub open spec fn val_ok(v: i64) -> bool {
    -VAL_LIMIT <= v <= VAL_LIMIT
}

/// A 3-component fixed-point vector (translation or scale).
#[derive(Clone, Copy, PartialEq, Eq, Structural, Debug)]
pub struct Vec3Fx {
    pub x: i64,
    pub y: i64,
    pub z: i64,
}

/// A fixed-point quaternion, `w` the scalar part.
#[derive(Clone, Copy, PartialEq, Eq, Structural, Debug)]
pub struct QuatFx {
    pub x: i64,
    pub y: i64,
    pub z: i64,
    pub w: i64,
}

/// A bone transform: translation, rotation and scale channels.
#[derive(Clone, Copy, PartialEq, Eq, Structural, Debug)]
pub struct Transform {
    pub translation: Vec3Fx,
    pub rotation: QuatFx,
    pub scale: Vec3Fx,
}

pub open spec fn vec3_ok(v: Vec3Fx) -> bool {
    val_ok(v.x) && val_ok(v.y) && val_ok(v.z)
}

pub open spec fn quat_ok(q: QuatFx) -> bool {
    val_ok(q.x) && val_ok(q.y) && val_ok(q.z) && val_ok(q.w)
}

/// Linear interpolation of one scalar: `a + (b - a) * num / den`, evaluated
/// with division rounding towards `a` (the quotient's magnitude is rounded
/// down). `num / den` is the interpolation fraction, `0 <= num <= den`.
pub open spec fn lerp_int(a: int, b: int, num: int, den: int) -> int {
    if b >= a {
        a + (b - a) * num / den
    } else {
        a - (a - b) * num / den
    }
}

/// The interpolated scalar lies between the endpoints.
pub proof fn lemma_lerp_int_bounds(a: int, b: int, num: int, den: int)
    requires
        0 < den,
        0 <= num <= den,
    ensures
        a <= b ==> a <= lerp_int(a, b, num, den) <= b,
        b <= a ==> b <= lerp_int(a, b, num, den) <= a,
{
    if a <= b {
        lemma_mul_div_range(b - a, num, den);
    } else {
        lemma_mul_div_range(a - b, num, den);
    }
}

/// For `0 <= d` and `0 <= num <= den`, `d * num / den` lies in `[0, d]`.
proof fn lemma_mul_div_range(d: int, num: int, den: int)
    requires
        0 <= d,
        0 < den,
        0 <= num <= den,
    ensures
        0 <= d * num / den <= d,
{
    assert(0 <= d * num) by (nonlinear_arith)
        requires
            0 <= d,
            0 <= num,
    ;
    assert(d * num <= d * den) by (nonlinear_arith)
        requires
            0 <= d,
            num <= den,
    ;
    assert(0 <= d * num / den <= d) by (nonlinear_arith)
        requires
            0 < den,
            0 <= d * num,
            d * num <= d * den,
    ;
}

/// At the exact midpoint the interpolation is the halved sum whenever that
/// sum is even; rounding never loses more than one unit otherwise.
pub proof fn lemma_lerp_int_midpoint(a: int, b: int, den: int)
    requires
        0 < den,
        den % 2 == 0,
        (a + b) % 2 == 0,
    ensures
        lerp_int(a, b, den / 2, den) == (a + b) / 2,
{
    let h = den / 2;
    if b >= a {
        let d = b - a;
        assert(d % 2 == 0) by {
            assert((a + b) % 2 == 0);
        }
        lemma_even_half_product(d, h, den);
        assert(a + d / 2 == (a + b) / 2);
    } else {
        let d = a - b;
        assert(d % 2 == 0);
        lemma_even_half_product(d, h, den);
        assert(a - d / 2 == (a + b) / 2);
    }
}

/// For even `d` and `den == 2 * h`, `d * h / den == d / 2`.
proof fn lemma_even_half_product(d: int, h: int, den: int)
    requires
        0 <= d,
        d % 2 == 0,
        0 < den,
        den == 2 * h,
    ensures
        d * h / den == d / 2,
{
    let k = d / 2;
    assert(d == 2 * k);
    assert(d * h == k * den) by (nonlinear_arith)
        requires
            d == 2 * k,
            den == 2 * h,
    ;
    assert(k * den / den == k) by (nonlinear_arith)
        requires
            0 < den,
    ;
}

/// At fraction zero the interpolation returns the first endpoint
/// exactly.
pub proof fn lemma_lerp_int_at_zero(a: int, b: int, den: int)
    requires
        0 < den,
    ensures
        lerp_int(a, b, 0, den) == a,
{
    lemma_div_of0(den);
    if b >= a {
        assert((b - a) * 0 == 0);
    } else {
        assert((a - b) * 0 == 0);
    }
}

/// Fixed-point scalar interpolation; exact integer evaluation of
/// [`lerp_int`].
pub fn lerp_i64(a: i64, b: i64, num: i64, den: i64) -> (r: i64)
    requires
        val_ok(a),
        val_ok(b),
        0 < den <= TIME_LIMIT,
        0 <= num <= den,
    ensures
        r == lerp_int(a as int, b as int, num as int, den as int),
        val_ok(r),
{
    proof {
        lemma_lerp_int_bounds(a as int, b as int, num as int, den as int);
    }
    if b >= a {
        let d: i64 = b - a;
        assert(d * num <= d * den <= VAL_LIMIT * 2 * TIME_LIMIT) by (nonlinear_arith)
            requires
                0 <= d <= VAL_LIMIT * 2,
                0 <= num <= den <= TIME_LIMIT,
        ;
        a + d * num / den
    } else {
        let d: i64 = a - b;
        assert(d * num <= d * den <= VAL_LIMIT * 2 * TIME_LIMIT) by (nonlinear_arith)
            requires
                0 <= d <= VAL_LIMIT * 2,
                0 <= num <= den <= TIME_LIMIT,
        ;
        a - d * num / den
    }
}

/// Componentwise linear interpolation of two vectors.
pub open spec fn lerp_vec3_spec(a: Vec3Fx, b: Vec3Fx, num: int, den: int) -> Vec3Fx {
    Vec3Fx {
        x: lerp_int(a.x as int, b.x as int, num, den) as i64,
        y: lerp_int(a.y as int, b.y as int, num, den) as i64,
        z: lerp_int(a.z as int, b.z as int, num, den) as i64,
    }
}

pub fn lerp_vec3(a: Vec3Fx, b: Vec3Fx, num: i64, den: i64) -> (r: Vec3Fx)
    requires
        vec3_ok(a),
        vec3_ok(b),
        0 < den <= TIME_LIMIT,
        0 <= num <= den,
    ensures
        r == lerp_vec3_spec(a, b, num as int, den as int),
        vec3_ok(r),
{
    Vec3Fx {
        x: lerp_i64(a.x, b.x, num, den),
        y: lerp_i64(a.y, b.y, num, den),
        z: lerp_i64(a.z, b.z, num, den),
    }
}

/// The four-component dot product of two quaternions. Its sign tells the
/// two hemispheres apart: a negative dot means `b` must be negated to
/// interpolate along the shorter arc.
pub open spec fn quat_dot(a: QuatFx, b: QuatFx) -> int {
    a.x * b.x + a.y * b.y + a.z * b.z + a.w * b.w
}

/// Componentwise negation; `-q` denotes the same rotation as `q`.
pub open spec fn quat_neg_spec(q: QuatFx) -> QuatFx {
    QuatFx { x: -q.x as i64, y: -q.y as i64, z: -q.z as i64, w: -q.w as i64 }
}

/// The representative of `b` on the same hemisphere as `a`: interpolating
/// towards it follows the shortest arc between the two rotations.
pub open spec fn align_quat_spec(a: QuatFx, b: QuatFx) -> QuatFx {
    if quat_dot(a, b) < 0 {
        quat_neg_spec(b)
    } else {
        b
    }
}

/// Shortest-arc interpolation of two quaternions: componentwise linear
/// interpolation from `a` towards the aligned representative of `b`.
/// The result is a positive multiple of the unit quaternion on the
/// shortest arc; at fraction 1/2 its direction is the spherical midpoint.
pub open spec fn lerp_quat_spec(a: QuatFx, b: QuatFx, num: int, den: int) -> QuatFx {
    let c = align_quat_spec(a, b);
    QuatFx {
        x: lerp_int(a.x as int, c.x as int, num, den) as i64,
        y: lerp_int(a.y as int, c.y as int, num, den) as i64,
        z: lerp_int(a.z as int, c.z as int, num, den) as i64,
        w: lerp_int(a.w as int, c.w as int, num, den) as i64,
    }
}

pub fn quat_dot_i64(a: &QuatFx, b: &QuatFx) -> (r: i64)
    requires
        quat_ok(*a),
        quat_ok(*b),
    ensures
        r == quat_dot(*a, *b),
{
    proof {
        assert(-(VAL_LIMIT * VAL_LIMIT) <= a.x * b.x <= VAL_LIMIT * VAL_LIMIT) by (nonlinear_arith)
            requires
                val_ok(a.x),
                val_ok(b.x),
        ;
        assert(-(VAL_LIMIT * VAL_LIMIT) <= a.y * b.y <= VAL_LIMIT * VAL_LIMIT) by (nonlinear_arith)
            requires
                val_ok(a.y),
                val_ok(b.y),
        ;
        assert(-(VAL_LIMIT * VAL_LIMIT) <= a.z * b.z <= VAL_LIMIT * VAL_LIMIT) by (nonlinear_arith)
            requires
                val_ok(a.z),
                val_ok(b.z),
        ;
        assert(-(VAL_LIMIT * VAL_LIMIT) <= a.w * b.w <= VAL_LIMIT * VAL_LIMIT) by (nonlinear_arith)
            requires
                val_ok(a.w),
                val_ok(b.w),
        ;
    }
    a.x * b.x + a.y * b.y + a.z * b.z + a.w * b.w
}

pub fn quat_neg(q: &QuatFx) -> (r: QuatFx)
    requires
        quat_ok(*q),
    ensures
        r == quat_neg_spec(*q),
        quat_ok(r),
{
    QuatFx { x: -q.x, y: -q.y, z: -q.z, w: -q.w }
}

pub fn lerp_quat(a: &QuatFx, b: &QuatFx, num: i64, den: i64) -> (r: QuatFx)
    requires
        quat_ok(*a),
        quat_ok(*b),
        0 < den <= TIME_LIMIT,
        0 <= num <= den,
    ensures
        r == lerp_quat_spec(*a, *b, num as int, den as int),
        quat_ok(r),
{
    let d = quat_dot_i64(a, b);
    let c = if d < 0 {
        quat_neg(b)
    } else {
        *b
    };
    QuatFx {
        x: lerp_i64(a.x, c.x, num, den),
        y: lerp_i64(a.y, c.y, num, den),
        z: lerp_i64(a.z, c.z, num, den),
        w: lerp_i64(a.w, c.w, num, den),
    }
}

/// The 180-degree rotation about the vertical axis, as a fixed-point
/// quaternion.
pub open spec fn flip_y_spec() -> QuatFx {
    QuatFx { x: 0, y: SCALE, z: 0, w: 0 }
}

/// Fixed-point Hamilton product of two quaternions; every component is a
/// sum of scaled products, divided back down by `SCALE`.
pub open spec fn quat_mul_spec(p: QuatFx, q: QuatFx) -> QuatFx {
    QuatFx {
        x: ((p.w * q.x + p.x * q.w + p.y * q.z - p.z * q.y) / (SCALE as int)) as i64,
        y: ((p.w * q.y + p.y * q.w + p.z * q.x - p.x * q.z) / (SCALE as int)) as i64,
        z: ((p.w * q.z + p.z * q.w + p.x * q.y - p.y * q.x) / (SCALE as int)) as i64,
        w: ((p.w * q.w - p.x * q.x - p.y * q.y - p.z * q.z) / (SCALE as int)) as i64,
    }
}

/// The skeleton-orientation fix-up: the interpolated rotation composed
/// with the 180-degree vertical-axis rotation on both sides. On
/// components this conjugation-like product is an exact sign flip of the
/// `y` and `w` parts (see [`lemma_rot_correct_is_flip_product`]); it is a
/// deliberate rig-convention correction, not a simplification.
pub open spec fn rot_correct_spec(q: QuatFx) -> QuatFx {
    QuatFx { x: q.x, y: -q.y as i64, z: q.z, w: -q.w as i64 }
}

pub fn rot_correct(q: &QuatFx) -> (r: QuatFx)
    requires
        quat_ok(*q),
    ensures
        r == rot_correct_spec(*q),
        quat_ok(r),
{
    QuatFx { x: q.x, y: -q.y, z: q.z, w: -q.w }
}

/// The sign flip in [`rot_correct_spec`] is exactly the fixed-point
/// product `flip * q * flip` with the 180-degree vertical-axis rotation:
/// no rounding occurs because every factor of `flip` is `0` or `SCALE`.
pub proof fn lemma_rot_correct_is_flip_product(q: QuatFx)
    requires
        quat_ok(q),
    ensures
        rot_correct_spec(q) == quat_mul_spec(flip_y_spec(), quat_mul_spec(q, flip_y_spec())),
{
    let f = flip_y_spec();
    let s = SCALE as int;
    lemma_div_multiples_vanish(-(q.z as int), s);
    lemma_div_multiples_vanish(q.w as int, s);
    lemma_div_multiples_vanish(q.x as int, s);
    lemma_div_multiples_vanish(-(q.y as int), s);
    assert(q.x * s == s * (q.x as int)) by (nonlinear_arith);
    assert(q.w * s == s * (q.w as int)) by (nonlinear_arith);
    assert(-(q.z * s) == s * (-(q.z as int))) by (nonlinear_arith);
    assert(-(q.y * s) == s * (-(q.y as int))) by (nonlinear_arith);
    let r = quat_mul_spec(q, f);
    assert(r.x == -(q.z as int));
    assert(r.y == q.w as int);
    assert(r.z == q.x as int);
    assert(r.w == -(q.y as int));
    lemma_div_multiples_vanish(r.z as int, s);
    lemma_div_multiples_vanish(-(r.y as int), s);
    lemma_div_multiples_vanish(-(r.x as int), s);
    lemma_div_multiples_vanish(r.w as int, s);
    assert(s * (r.z as int) == r.z * s) by (nonlinear_arith);
    assert(s * (-(r.y as int)) == -(r.y * s)) by (nonlinear_arith);
    assert(s * (-(r.x as int)) == -(r.x * s)) by (nonlinear_arith);
    assert(s * (r.w as int) == r.w * s) by (nonlinear_arith);
}

} // verus!
