//! Three-component vectors of IEEE 754 binary32 values, held as bit patterns.
//!
//! The library never computes with floating point itself: each arithmetic
//! step is a call into `glam` behind a trusted wrapper, and the contracts
//! speak of the bit patterns that come back. The basic IEEE 754 operations
//! (addition, multiplication, division, square root) are deterministic
//! functions of the operand bits, so each wrapper's result is named by an
//! uninterpreted spec function, and the few sums and products that IEEE 754
//! makes exact — those among 0.0, -0.0, 1.0 and -1.0 — are stated as well.

use vstd::prelude::*;

verus! {

/// Bit pattern of `0.0f32`.
pub const POS_ZERO: u32 = 0x0000_0000;

/// Bit pattern of `-0.0f32`.
pub const NEG_ZERO: u32 = 0x8000_0000;

/// Bit pattern of `1.0f32`.
pub const ONE: u32 = 0x3F80_0000;

/// Bit pattern of `-1.0f32`.
pub const NEG_ONE: u32 = 0xBF80_0000;

/// A 3-vector of binary32 values, each component held as its bit pattern.
#[derive(Clone, Copy, PartialEq, Eq, Structural, Debug)]
pub struct Vec3Bits {
    pub x: u32,
    pub y: u32,
    pub z: u32,
}

/// The componentwise sum, as `glam`'s `Add` for `Vec3` computes it.
pub uninterp spec fn add_bits(a: u32, b: u32) -> u32;

/// The componentwise product, as `glam`'s `Mul` for `Vec3` computes it.
pub uninterp spec fn mul_bits(a: u32, b: u32) -> u32;

/// The componentwise quotient, as `glam`'s `Div` for `Vec3` computes it.
pub uninterp spec fn div_bits(a: u32, b: u32) -> u32;

/// The Euclidean length, as `glam::Vec3::length` computes it.
pub uninterp spec fn len_bits(v: Vec3Bits) -> u32;

/// The bit patterns of 0.0, -0.0, 1.0 and -1.0: the values whose sums with a
/// zero and whose pairwise products IEEE 754 arithmetic returns exactly.
pub open spec fn unit_val(a: u32) -> bool {
    a == POS_ZERO || a == NEG_ZERO || a == ONE || a == NEG_ONE
}

/// The two zero bit patterns.
pub open spec fn zeroish(a: u32) -> bool {
    a == POS_ZERO || a == NEG_ZERO
}

/// Whether a value in the `unit_val` set carries a negative sign.
pub open spec fn neg_sign(a: u32) -> bool {
    a == NEG_ZERO || a == NEG_ONE
}

/// The exact IEEE 754 product of two values from the `unit_val` set: the
/// magnitudes multiply exactly and the result's sign is the exclusive or of
/// the operands' signs.
pub open spec fn unit_mul(a: u32, b: u32) -> u32 {
    if zeroish(a) || zeroish(b) {
        if neg_sign(a) != neg_sign(b) {
            NEG_ZERO
        } else {
            POS_ZERO
        }
    } else {
        if neg_sign(a) != neg_sign(b) {
            NEG_ONE
        } else {
            ONE
        }
    }
}

/// The exact IEEE 754 sum of two values from the `unit_val` set of which at
/// least one is a zero: adding a zero returns the other operand, except that
/// under round-to-nearest the sum of two zeros is `+0.0` unless both are
/// `-0.0`.
pub open spec fn add_zero_u(a: u32, b: u32) -> u32 {
    if zeroish(a) && zeroish(b) {
        if a == NEG_ZERO && b == NEG_ZERO {
            NEG_ZERO
        } else {
            POS_ZERO
        }
    } else if zeroish(b) {
        a
    } else {
        b
    }
}

/// What a wrapper promises of one component of a sum beyond the named IEEE
/// result: sums with a zero among 0.0, -0.0, 1.0, -1.0 are exact.
pub open spec fn add_exact(a: u32, b: u32, r: u32) -> bool {
    unit_val(a) && unit_val(b) && (zeroish(a) || zeroish(b)) ==> r == add_zero_u(a, b)
}

/// What a wrapper promises of one component of a product beyond the named
/// IEEE result: products among 0.0, -0.0, 1.0, -1.0 are exact.
pub open spec fn mul_exact(a: u32, b: u32, r: u32) -> bool {
    unit_val(a) && unit_val(b) ==> r == unit_mul(a, b)
}

/// Relies on `glam::Vec3`'s componentwise `Add`, which is IEEE 754 binary32
/// addition of each pair of components. IEEE addition is a deterministic
/// function of the operand bits (named `add_bits`), and sums with a zero among
/// 0.0, -0.0, 1.0 and -1.0 are exact.
#[verifier::external_body]
pub(crate) fn vec_add(a: Vec3Bits, b: Vec3Bits) -> (r: Vec3Bits)
    ensures
        r.x == add_bits(a.x, b.x),
        r.y == add_bits(a.y, b.y),
        r.z == add_bits(a.z, b.z),
        add_exact(a.x, b.x, r.x),
        add_exact(a.y, b.y, r.y),
        add_exact(a.z, b.z, r.z),
{
    let va = glam::Vec3::new(bytemuck::cast(a.x), bytemuck::cast(a.y), bytemuck::cast(a.z));
    let vb = glam::Vec3::new(bytemuck::cast(b.x), bytemuck::cast(b.y), bytemuck::cast(b.z));
    let v = va + vb;
    Vec3Bits { x: v.x.to_bits(), y: v.y.to_bits(), z: v.z.to_bits() }
}

/// Relies on `glam::Vec3`'s componentwise `Mul`, which is IEEE 754 binary32
/// multiplication of each component by the scalar. IEEE multiplication is a
/// deterministic function of the operand bits (named `mul_bits`), and
/// products among 0.0, -0.0, 1.0 and -1.0 are exact.
#[verifier::external_body]
pub(crate) fn vec_scale(v: Vec3Bits, s: u32) -> (r: Vec3Bits)
    ensures
        r.x == mul_bits(v.x, s),
        r.y == mul_bits(v.y, s),
        r.z == mul_bits(v.z, s),
        mul_exact(v.x, s, r.x),
        mul_exact(v.y, s, r.y),
        mul_exact(v.z, s, r.z),
{
    let vv = glam::Vec3::new(bytemuck::cast(v.x), bytemuck::cast(v.y), bytemuck::cast(v.z));
    let p = vv * glam::Vec3::splat(bytemuck::cast(s));
    Vec3Bits { x: p.x.to_bits(), y: p.y.to_bits(), z: p.z.to_bits() }
}

/// Relies on `glam::Vec3`'s componentwise `Div`, which is IEEE 754 binary32
/// division of each component by the scalar: a deterministic function of the
/// operand bits, named `div_bits`. Division never panics; a zero divisor
/// yields an infinity or NaN bit pattern.
#[verifier::external_body]
pub(crate) fn vec_div(v: Vec3Bits, s: u32) -> (r: Vec3Bits)
    ensures
        r.x == div_bits(v.x, s),
        r.y == div_bits(v.y, s),
        r.z == div_bits(v.z, s),
{
    let vv = glam::Vec3::new(bytemuck::cast(v.x), bytemuck::cast(v.y), bytemuck::cast(v.z));
    let q = vv / glam::Vec3::splat(bytemuck::cast(s));
    Vec3Bits { x: q.x.to_bits(), y: q.y.to_bits(), z: q.z.to_bits() }
}

/// Relies on `glam::Vec3::length`: the square root of the dot product of the
/// vector with itself. Both steps are IEEE 754 basic operations, so the
/// result is a deterministic function of the component bits, named
/// `len_bits`.
#[verifier::external_body]
pub(crate) fn vec_len(v: Vec3Bits) -> (r: u32)
    ensures
        r == len_bits(v),
{
    let vv = glam::Vec3::new(bytemuck::cast(v.x), bytemuck::cast(v.y), bytemuck::cast(v.z));
    vv.length().to_bits()
}

/// Relies on `f32::sin_cos` (std). Its precision is platform-dependent, so
/// nothing is promised of the returned bit patterns: callers state what holds
/// whatever came back.
#[verifier::external_body]
pub(crate) fn sin_cos_bits(theta: u32) -> (r: (u32, u32))
{
    let (s, c) = glam::Vec3::splat(bytemuck::cast(theta)).x.sin_cos();
    (s.to_bits(), c.to_bits())
}

/// The bit pattern of the negated value: IEEE 754 negation is exactly a flip
/// of the sign bit.
pub open spec fn neg_bits(a: u32) -> u32 {
    a ^ NEG_ZERO
}

/// The normalized vector: each component divided by the vector's length.
pub open spec fn spec_normalize(v: Vec3Bits) -> Vec3Bits {
    Vec3Bits {
        x: div_bits(v.x, len_bits(v)),
        y: div_bits(v.y, len_bits(v)),
        z: div_bits(v.z, len_bits(v)),
    }
}

/// Divides a vector by its own length.
pub fn normalize(v: Vec3Bits) -> (r: Vec3Bits)
    ensures
        r == spec_normalize(v),
{
    let l = vec_len(v);
    vec_div(v, l)
}

} // verus!
