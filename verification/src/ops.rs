//! Transform operations and their compilation into one affine map.
//!
//! An operation list is ordered: insertion order is application order, and
//! composition is non-commutative. The compiler folds the list left to right
//! onto the identity map, composing each operation's elementary map on the
//! side that applies it to the already-transformed point.

use vstd::prelude::*;

use crate::affine::compose;
use crate::affine::identity_map;
use crate::affine::mirror_map;
use crate::affine::rotation_map;
use crate::affine::spec_identity_map;
use crate::affine::spec_mirror_map;
use crate::affine::spec_rotation_map;
use crate::affine::spec_translate_map;
use crate::affine::translate_map;
use crate::affine::AffineMap;
use crate::affine::Axis;
use crate::vecbits::sin_cos_bits;
use crate::vecbits::Vec3Bits;
use crate::vecbits::POS_ZERO;

verus! {

/// One transform operation. Rotation angles are radians, carried as the bit
/// pattern of a binary32 value; the translation carries one bit-pattern
/// vector.
#[derive(Clone, Copy, PartialEq, Eq, Structural, Debug)]
pub enum TransformOp {
    Translate(Vec3Bits),
    RotateX(u32),
    RotateY(u32),
    RotateZ(u32),
    MirrorX,
    MirrorY,
    MirrorZ,
}

/// An ordered sequence of operations: insertion order is application order.
pub type OperationList = Vec<TransformOp>;

/// The elementary affine map of one operation. The rotation variants take the
/// bit patterns `s` and `c` of the angle's sine and cosine as parameters; the
/// other variants ignore them.
pub open spec fn spec_elem_map(op: TransformOp, s: u32, c: u32) -> AffineMap {
    match op {
        TransformOp::Translate(v) => spec_translate_map(v),
        TransformOp::RotateX(_) => spec_rotation_map(Axis::X, s, c),
        TransformOp::RotateY(_) => spec_rotation_map(Axis::Y, s, c),
        TransformOp::RotateZ(_) => spec_rotation_map(Axis::Z, s, c),
        TransformOp::MirrorX => spec_mirror_map(Axis::X),
        TransformOp::MirrorY => spec_mirror_map(Axis::Y),
        TransformOp::MirrorZ => spec_mirror_map(Axis::Z),
    }
}

/// Builds the elementary map of one operation. The sine and cosine of a
/// rotation angle come from the platform's implementation, of which nothing
/// is promised, so the contract only fixes the map's shape: there are bit
/// patterns `s`, `c` that it is the elementary map for.
pub fn elementary_map(op: &TransformOp) -> (r: AffineMap)
    ensures
        exists|s: u32, c: u32| r == spec_elem_map(*op, s, c),
{
    match *op {
        TransformOp::Translate(v) => {
            let m = translate_map(v);
            proof {
                assert(exists|s: u32, c: u32| m == spec_elem_map(*op, s, c)) by {
                    assert(m == spec_elem_map(*op, POS_ZERO, POS_ZERO));
                }
            }
            m
        },
        TransformOp::RotateX(theta) => {
            let (s, c) = sin_cos_bits(theta);
            let m = rotation_map(Axis::X, s, c);
            proof {
                assert(m == spec_elem_map(*op, s, c));
            }
            m
        },
        TransformOp::RotateY(theta) => {
            let (s, c) = sin_cos_bits(theta);
            let m = rotation_map(Axis::Y, s, c);
            proof {
                assert(m == spec_elem_map(*op, s, c));
            }
            m
        },
        TransformOp::RotateZ(theta) => {
            let (s, c) = sin_cos_bits(theta);
            let m = rotation_map(Axis::Z, s, c);
            proof {
                assert(m == spec_elem_map(*op, s, c));
            }
            m
        },
        TransformOp::MirrorX => {
            let m = mirror_map(Axis::X);
            proof {
                assert(exists|s: u32, c: u32| m == spec_elem_map(*op, s, c)) by {
                    assert(m == spec_elem_map(*op, POS_ZERO, POS_ZERO));
                }
            }
            m
        },
        TransformOp::MirrorY => {
            let m = mirror_map(Axis::Y);
            proof {
                assert(exists|s: u32, c: u32| m == spec_elem_map(*op, s, c)) by {
                    assert(m == spec_elem_map(*op, POS_ZERO, POS_ZERO));
                }
            }
            m
        },
        TransformOp::MirrorZ => {
            let m = mirror_map(Axis::Z);
            proof {
                assert(exists|s: u32, c: u32| m == spec_elem_map(*op, s, c)) by {
                    assert(m == spec_elem_map(*op, POS_ZERO, POS_ZERO));
                }
            }
            m
        },
    }
}

/// The left fold of an operation list onto the identity map: the composite of
/// the elementary maps in listed order, each composed so that it applies to
/// the already-transformed point. `tr` supplies the sine/cosine bit patterns
/// of each operation, position by position.
pub open spec fn spec_compile(ops: Seq<TransformOp>, tr: Seq<(u32, u32)>) -> AffineMap
    decreases ops.len(),
{
    if ops.len() == 0 {
        spec_identity_map()
    } else {
        crate::affine::spec_compose(
            spec_elem_map(ops.last(), tr.last().0, tr.last().1),
            spec_compile(ops.drop_last(), tr.drop_last()),
        )
    }
}

/// Folds an operation list into one affine map. The composite is the fold of
/// the elementary maps in listed order, for some sequence of sine/cosine bit
/// patterns (one pair per operation); the empty list compiles to the identity
/// map exactly.
pub fn compile(ops: &OperationList) -> (r: AffineMap)
    ensures
        exists|tr: Seq<(u32, u32)>|
            tr.len() == ops@.len() && r == spec_compile(ops@, tr),
        ops@.len() == 0 ==> r == spec_identity_map(),
{
    let mut acc = identity_map();
    let ghost mut trig: Seq<(u32, u32)> = Seq::empty();
    let mut i: usize = 0;
    proof {
        assert(ops@.take(0) =~= Seq::<TransformOp>::empty());
    }
    while i < ops.len()
        invariant
            i <= ops@.len(),
            trig.len() == i as nat,
            acc == spec_compile(ops@.take(i as int), trig),
        decreases ops@.len() - i,
    {
        let m = elementary_map(&ops[i]);
        let ghost (s, c): (u32, u32) = choose|s: u32, c: u32|
            m == spec_elem_map(ops@[i as int], s, c);
        acc = compose(&m, &acc);
        proof {
            let pre = trig;
            trig = trig.push((s, c));
            assert(ops@.take(i as int + 1).drop_last() =~= ops@.take(i as int));
            assert(trig.drop_last() =~= pre);
            assert(ops@.take(i as int + 1).last() == ops@[i as int]);
            assert(acc == spec_compile(ops@.take(i as int + 1), trig));
        }
        i = i + 1;
    }
    proof {
        assert(ops@.take(ops@.len() as int) =~= ops@);
    }
    acc
}

} // verus!
