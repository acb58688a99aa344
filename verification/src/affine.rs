//! Affine maps `p -> L*p + t` over bit-pattern vectors.
//!
//! The linear part is held as three columns. Composition and application are
//! verified code over the trusted componentwise wrappers of [`crate::vecbits`];
//! their contracts pin the result down to the exact combination of named IEEE
//! operations that the code performs.

use vstd::prelude::*;

use crate::vecbits::add_bits;
use crate::vecbits::add_exact;
use crate::vecbits::add_zero_u;
use crate::vecbits::div_bits;
use crate::vecbits::len_bits;
use crate::vecbits::mul_bits;
use crate::vecbits::mul_exact;
use crate::vecbits::neg_bits;
use crate::vecbits::neg_sign;
use crate::vecbits::normalize;
use crate::vecbits::spec_normalize;
use crate::vecbits::unit_mul;
use crate::vecbits::unit_val;
use crate::vecbits::vec_add;
use crate::vecbits::vec_scale;
use crate::vecbits::zeroish;
use crate::vecbits::Vec3Bits;
use crate::vecbits::NEG_ONE;
use crate::vecbits::NEG_ZERO;
use crate::vecbits::ONE;
use crate::vecbits::POS_ZERO;

verus! {

/// One of the three coordinate axes.
#[derive(Clone, Copy, PartialEq, Eq, Structural, Debug)]
pub enum Axis {
    X,
    Y,
    Z,
}

/// A 3x3 matrix of binary32 bit patterns, held as its three columns.
#[derive(Clone, Copy, PartialEq, Eq, Structural, Debug)]
pub struct Mat3Bits {
    pub cx: Vec3Bits,
    pub cy: Vec3Bits,
    pub cz: Vec3Bits,
}

/// An affine map `p -> L*p + t`: a linear part `L` and a translation `t`.
#[derive(Clone, Copy, PartialEq, Eq, Structural, Debug)]
pub struct AffineMap {
    pub linear: Mat3Bits,
    pub translation: Vec3Bits,
}

/// The vector (+0.0, +0.0, +0.0).
pub open spec fn zero_vec() -> Vec3Bits {
    Vec3Bits { x: POS_ZERO, y: POS_ZERO, z: POS_ZERO }
}

/// The diagonal matrix with the given bit patterns on the diagonal and +0.0
/// elsewhere.
pub open spec fn diag3(d1: u32, d2: u32, d3: u32) -> Mat3Bits {
    Mat3Bits {
        cx: Vec3Bits { x: d1, y: POS_ZERO, z: POS_ZERO },
        cy: Vec3Bits { x: POS_ZERO, y: d2, z: POS_ZERO },
        cz: Vec3Bits { x: POS_ZERO, y: POS_ZERO, z: d3 },
    }
}

/// The identity affine map.
pub open spec fn spec_identity_map() -> AffineMap {
    AffineMap { linear: diag3(ONE, ONE, ONE), translation: zero_vec() }
}

/// The pure translation by `v`: identity linear part, translation `v`.
pub open spec fn spec_translate_map(v: Vec3Bits) -> AffineMap {
    AffineMap { linear: diag3(ONE, ONE, ONE), translation: v }
}

/// The mirror through the plane orthogonal to `axis`: a diagonal linear part
/// that negates that axis, and no translation.
pub open spec fn spec_mirror_map(axis: Axis) -> AffineMap {
    match axis {
        Axis::X => AffineMap { linear: diag3(NEG_ONE, ONE, ONE), translation: zero_vec() },
        Axis::Y => AffineMap { linear: diag3(ONE, NEG_ONE, ONE), translation: zero_vec() },
        Axis::Z => AffineMap { linear: diag3(ONE, ONE, NEG_ONE), translation: zero_vec() },
    }
}

/// The standard right-handed rotation about `axis`, built from the bit
/// patterns of the angle's sine and cosine. Negation is an exact sign-bit
/// flip, so the matrix is an exact function of `s` and `c`.
pub open spec fn spec_rotation_map(axis: Axis, s: u32, c: u32) -> AffineMap {
    match axis {
        Axis::X => AffineMap {
            linear: Mat3Bits {
                cx: Vec3Bits { x: ONE, y: POS_ZERO, z: POS_ZERO },
                cy: Vec3Bits { x: POS_ZERO, y: c, z: s },
                cz: Vec3Bits { x: POS_ZERO, y: neg_bits(s), z: c },
            },
            translation: zero_vec(),
        },
        Axis::Y => AffineMap {
            linear: Mat3Bits {
                cx: Vec3Bits { x: c, y: POS_ZERO, z: neg_bits(s) },
                cy: Vec3Bits { x: POS_ZERO, y: ONE, z: POS_ZERO },
                cz: Vec3Bits { x: s, y: POS_ZERO, z: c },
            },
            translation: zero_vec(),
        },
        Axis::Z => AffineMap {
            linear: Mat3Bits {
                cx: Vec3Bits { x: c, y: s, z: POS_ZERO },
                cy: Vec3Bits { x: neg_bits(s), y: c, z: POS_ZERO },
                cz: Vec3Bits { x: POS_ZERO, y: POS_ZERO, z: ONE },
            },
            translation: zero_vec(),
        },
    }
}

/// The componentwise product of a vector with a scalar, over the named IEEE
/// multiplication.
pub open spec fn spec_vec_scale(v: Vec3Bits, s: u32) -> Vec3Bits {
    Vec3Bits { x: mul_bits(v.x, s), y: mul_bits(v.y, s), z: mul_bits(v.z, s) }
}

/// The componentwise sum of two vectors, over the named IEEE addition.
pub open spec fn spec_vec_add(a: Vec3Bits, b: Vec3Bits) -> Vec3Bits {
    Vec3Bits { x: add_bits(a.x, b.x), y: add_bits(a.y, b.y), z: add_bits(a.z, b.z) }
}

/// The matrix-vector product `m * v`, formed as
/// `m.cx * v.x + m.cy * v.y + m.cz * v.z` with the sums taken left to right.
pub open spec fn spec_mat_vec(m: Mat3Bits, v: Vec3Bits) -> Vec3Bits {
    spec_vec_add(
        spec_vec_add(spec_vec_scale(m.cx, v.x), spec_vec_scale(m.cy, v.y)),
        spec_vec_scale(m.cz, v.z),
    )
}

/// Whether every component of `v` is one of 0.0, -0.0, 1.0, -1.0.
pub open spec fn unit_vec3(v: Vec3Bits) -> bool {
    unit_val(v.x) && unit_val(v.y) && unit_val(v.z)
}

/// The zero bit pattern that carries the sign of `s`.
pub open spec fn zsign(s: u32) -> u32 {
    if neg_sign(s) {
        NEG_ZERO
    } else {
        POS_ZERO
    }
}

/// The exact value of `diag3(d1, d2, d3) * v` when the diagonal entries and
/// the components of `v` all lie in the `unit_val` set: every intermediate
/// product and sum is then exact.
pub open spec fn diag_apply(d1: u32, d2: u32, d3: u32, v: Vec3Bits) -> Vec3Bits {
    Vec3Bits {
        x: add_zero_u(add_zero_u(unit_mul(d1, v.x), zsign(v.y)), zsign(v.z)),
        y: add_zero_u(add_zero_u(zsign(v.x), unit_mul(d2, v.y)), zsign(v.z)),
        z: add_zero_u(add_zero_u(zsign(v.x), zsign(v.y)), unit_mul(d3, v.z)),
    }
}

/// Computes `m * v` by scaling the columns and summing left to right, the
/// order that `spec_mat_vec` states. For a diagonal matrix with entries in
/// the `unit_val` set applied to a `unit_vec3`, the result is exact.
pub fn mat_vec_mul(m: &Mat3Bits, v: Vec3Bits) -> (r: Vec3Bits)
    ensures
        r == spec_mat_vec(*m, v),
        forall|d1: u32, d2: u32, d3: u32|
            #![trigger diag3(d1, d2, d3)]
            (*m == diag3(d1, d2, d3) && unit_val(d1) && unit_val(d2) && unit_val(d3)
                && unit_vec3(v)) ==> r == diag_apply(d1, d2, d3, v),
{
    let sx = vec_scale(m.cx, v.x);
    let sy = vec_scale(m.cy, v.y);
    let sz = vec_scale(m.cz, v.z);
    let t = vec_add(sx, sy);
    let r = vec_add(t, sz);
    proof {
        assert forall|d1: u32, d2: u32, d3: u32|
            (*m == diag3(d1, d2, d3) && unit_val(d1) && unit_val(d2) && unit_val(d3)
                && unit_vec3(v)) implies r == diag_apply(d1, d2, d3, v) by {
            assert(sx.x == unit_mul(d1, v.x));
            assert(sy.x == unit_mul(POS_ZERO, v.y) && sy.x == zsign(v.y));
            assert(sz.x == zsign(v.z));
            assert(t.x == add_zero_u(unit_mul(d1, v.x), zsign(v.y)));
            assert(r.x == diag_apply(d1, d2, d3, v).x);
            assert(sx.y == zsign(v.x) && sy.y == unit_mul(d2, v.y) && sz.y == zsign(v.z));
            assert(r.y == diag_apply(d1, d2, d3, v).y);
            assert(sx.z == zsign(v.x) && sy.z == zsign(v.y) && sz.z == unit_mul(d3, v.z));
            assert(r.z == diag_apply(d1, d2, d3, v).z);
        }
    }
    r
}

/// The composition `second` after `first`: linear part `L2*L1`, translation
/// `L2*t1 + t2`. Applying the result to a point performs the named operations
/// of first applying `first` and then `second`, composed symbolically.
pub open spec fn spec_compose(second: AffineMap, first: AffineMap) -> AffineMap {
    AffineMap {
        linear: Mat3Bits {
            cx: spec_mat_vec(second.linear, first.linear.cx),
            cy: spec_mat_vec(second.linear, first.linear.cy),
            cz: spec_mat_vec(second.linear, first.linear.cz),
        },
        translation: spec_vec_add(
            spec_mat_vec(second.linear, first.translation),
            second.translation,
        ),
    }
}

/// Composes two affine maps: the result applies `first` and then `second`.
///
/// A mirror composed with itself is the identity map: the products of 0.0,
/// -0.0, 1.0 and -1.0 that the composition multiplies and sums are all exact
/// in IEEE 754 arithmetic, so the identity comes out bit for bit.
pub fn compose(second: &AffineMap, first: &AffineMap) -> (r: AffineMap)
    ensures
        r == spec_compose(*second, *first),
        forall|axis: Axis|
            #![trigger spec_mirror_map(axis)]
            (*second == spec_mirror_map(axis) && *first == spec_mirror_map(axis)) ==> r
                == spec_identity_map(),
{
    let cx = mat_vec_mul(&second.linear, first.linear.cx);
    let cy = mat_vec_mul(&second.linear, first.linear.cy);
    let cz = mat_vec_mul(&second.linear, first.linear.cz);
    let t = vec_add(mat_vec_mul(&second.linear, first.translation), second.translation);
    let r = AffineMap { linear: Mat3Bits { cx, cy, cz }, translation: t };
    proof {
        assert forall|axis: Axis|
            (*second == spec_mirror_map(axis) && *first == spec_mirror_map(axis)) implies r
            == spec_identity_map() by {
            match axis {
                Axis::X => {
                    assert(r.linear.cx == spec_identity_map().linear.cx);
                    assert(r.linear.cy == spec_identity_map().linear.cy);
                    assert(r.linear.cz == spec_identity_map().linear.cz);
                    assert(r.translation == zero_vec());
                },
                Axis::Y => {
                    assert(r.linear.cx == spec_identity_map().linear.cx);
                    assert(r.linear.cy == spec_identity_map().linear.cy);
                    assert(r.linear.cz == spec_identity_map().linear.cz);
                    assert(r.translation == zero_vec());
                },
                Axis::Z => {
                    assert(r.linear.cx == spec_identity_map().linear.cx);
                    assert(r.linear.cy == spec_identity_map().linear.cy);
                    assert(r.linear.cz == spec_identity_map().linear.cz);
                    assert(r.translation == zero_vec());
                },
            }
        }
    }
    r
}

/// The image of the point `p`: `L*p + t`.
pub open spec fn spec_apply_point(m: AffineMap, p: Vec3Bits) -> Vec3Bits {
    spec_vec_add(spec_mat_vec(m.linear, p), m.translation)
}

/// Applies the map to a point: multiplies by the linear part and adds the
/// translation.
pub fn apply_point(m: &AffineMap, p: Vec3Bits) -> (r: Vec3Bits)
    ensures
        r == spec_apply_point(*m, p),
{
    let lp = mat_vec_mul(&m.linear, p);
    vec_add(lp, m.translation)
}

/// The matrix that transforms face normals. The linear parts built here are
/// orthogonal (rotations and axis mirrors), so it is the linear part itself;
/// an operation with non-uniform scaling would need the inverse transpose of
/// the linear part instead, and only this derivation would change.
pub open spec fn spec_normal_matrix(m: AffineMap) -> Mat3Bits {
    m.linear
}

/// The named step that derives the normal-transform matrix from a map.
pub fn normal_matrix(m: &AffineMap) -> (r: Mat3Bits)
    ensures
        r == spec_normal_matrix(*m),
{
    m.linear
}

/// The image of a face normal: the normal matrix applied to `n`, then
/// normalized. The translation plays no part.
pub open spec fn spec_transform_normal(m: AffineMap, n: Vec3Bits) -> Vec3Bits {
    spec_normalize(spec_mat_vec(spec_normal_matrix(m), n))
}

/// Applies the map to a face normal: multiplies by the normal matrix and
/// re-normalizes. The translation is never applied.
pub fn transform_normal(m: &AffineMap, n: Vec3Bits) -> (r: Vec3Bits)
    ensures
        r == spec_transform_normal(*m, n),
{
    let nm = normal_matrix(m);
    let ln = mat_vec_mul(&nm, n);
    normalize(ln)
}

/// Translation never alters a normal: two maps with the same linear part
/// transform every normal to bit-identical results, whatever their
/// translation vectors.
pub proof fn lemma_normal_ignores_translation(a: AffineMap, b: AffineMap, n: Vec3Bits)
    requires
        a.linear == b.linear,
    ensures
        spec_transform_normal(a, n) == spec_transform_normal(b, n),
{
}

/// In particular, a pure translation transforms every normal exactly as the
/// identity map does, for any translation vector.
pub proof fn lemma_translate_map_normal(v: Vec3Bits, n: Vec3Bits)
    ensures
        spec_transform_normal(spec_translate_map(v), n) == spec_transform_normal(
            spec_identity_map(),
            n,
        ),
{
}

/// Builds the identity map.
pub fn identity_map() -> (r: AffineMap)
    ensures
        r == spec_identity_map(),
{
    AffineMap {
        linear: Mat3Bits {
            cx: Vec3Bits { x: ONE, y: POS_ZERO, z: POS_ZERO },
            cy: Vec3Bits { x: POS_ZERO, y: ONE, z: POS_ZERO },
            cz: Vec3Bits { x: POS_ZERO, y: POS_ZERO, z: ONE },
        },
        translation: Vec3Bits { x: POS_ZERO, y: POS_ZERO, z: POS_ZERO },
    }
}

/// Builds the pure translation by `v`.
pub fn translate_map(v: Vec3Bits) -> (r: AffineMap)
    ensures
        r == spec_translate_map(v),
{
    let mut m = identity_map();
    m.translation = v;
    m
}

/// Builds the mirror through the plane orthogonal to `axis`.
pub fn mirror_map(axis: Axis) -> (r: AffineMap)
    ensures
        r == spec_mirror_map(axis),
{
    let mut m = identity_map();
    match axis {
        Axis::X => m.linear.cx.x = NEG_ONE,
        Axis::Y => m.linear.cy.y = NEG_ONE,
        Axis::Z => m.linear.cz.z = NEG_ONE,
    }
    m
}

/// Builds the rotation about `axis` from the bit patterns of the angle's sine
/// and cosine.
pub fn rotation_map(axis: Axis, s: u32, c: u32) -> (r: AffineMap)
    ensures
        r == spec_rotation_map(axis, s, c),
{
    let ns = s ^ NEG_ZERO;
    match axis {
        Axis::X => AffineMap {
            linear: Mat3Bits {
                cx: Vec3Bits { x: ONE, y: POS_ZERO, z: POS_ZERO },
                cy: Vec3Bits { x: POS_ZERO, y: c, z: s },
                cz: Vec3Bits { x: POS_ZERO, y: ns, z: c },
            },
            translation: Vec3Bits { x: POS_ZERO, y: POS_ZERO, z: POS_ZERO },
        },
        Axis::Y => AffineMap {
            linear: Mat3Bits {
                cx: Vec3Bits { x: c, y: POS_ZERO, z: ns },
                cy: Vec3Bits { x: POS_ZERO, y: ONE, z: POS_ZERO },
                cz: Vec3Bits { x: s, y: POS_ZERO, z: c },
            },
            translation: Vec3Bits { x: POS_ZERO, y: POS_ZERO, z: POS_ZERO },
        },
        Axis::Z => AffineMap {
            linear: Mat3Bits {
                cx: Vec3Bits { x: c, y: s, z: POS_ZERO },
                cy: Vec3Bits { x: ns, y: c, z: POS_ZERO },
                cz: Vec3Bits { x: POS_ZERO, y: POS_ZERO, z: ONE },
            },
            translation: Vec3Bits { x: POS_ZERO, y: POS_ZERO, z: POS_ZERO },
        },
    }
}

} // verus!
