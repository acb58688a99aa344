//! Triangles and the streaming transform.
//!
//! Triangles are transient: the surrounding program reads one, hands it in,
//! and writes the transformed one out before the next is read. [`next_action`]
//! is the decision step of that loop: it turns one read event into the action
//! the caller must perform, so the caller holds no transform logic of its own.

use vstd::prelude::*;

use crate::affine::apply_point;
use crate::affine::spec_apply_point;
use crate::affine::spec_transform_normal;
use crate::affine::transform_normal;
use crate::affine::AffineMap;
use crate::vecbits::Vec3Bits;

verus! {

/// One triangle of the soup: a face normal and three vertex positions.
#[derive(Clone, Copy, PartialEq, Eq, Debug)]
pub struct Triangle {
    pub normal: Vec3Bits,
    pub vertices: [Vec3Bits; 3],
}

/// The image of a triangle: each vertex through the point map, the normal
/// through the normal map.
pub open spec fn spec_transform_triangle(m: AffineMap, t: Triangle) -> Triangle {
    Triangle {
        normal: spec_transform_normal(m, t.normal),
        vertices: [
            spec_apply_point(m, t.vertices[0]),
            spec_apply_point(m, t.vertices[1]),
            spec_apply_point(m, t.vertices[2]),
        ],
    }
}

/// Transforms one triangle: the three vertex positions through `p -> L*p + t`
/// and the face normal through the normal matrix with re-normalization.
pub fn transform_triangle(m: &AffineMap, t: &Triangle) -> (r: Triangle)
    ensures
        r == spec_transform_triangle(*m, *t),
{
    let n = transform_normal(m, t.normal);
    let v0 = apply_point(m, t.vertices[0]);
    let v1 = apply_point(m, t.vertices[1]);
    let v2 = apply_point(m, t.vertices[2]);
    let r = Triangle { normal: n, vertices: [v0, v1, v2] };
    proof {
        assert(r.vertices =~= spec_transform_triangle(*m, *t).vertices);
    }
    r
}

/// Transforms a buffered sequence of triangles, preserving order and length.
pub fn transform_triangles(m: &AffineMap, ts: &Vec<Triangle>) -> (r: Vec<Triangle>)
    ensures
        r@.len() == ts@.len(),
        forall|i: int|
            0 <= i < ts@.len() ==> r@[i] == spec_transform_triangle(*m, ts@[i]),
{
    let mut out: Vec<Triangle> = Vec::new();
    let mut i: usize = 0;
    while i < ts.len()
        invariant
            i <= ts@.len(),
            out@.len() == i as nat,
            forall|j: int| 0 <= j < i as int ==> out@[j] == spec_transform_triangle(*m, ts@[j]),
        decreases ts@.len() - i,
    {
        let t = transform_triangle(m, &ts[i]);
        out.push(t);
        i = i + 1;
    }
    out
}

/// One event from the triangle source: a decoded triangle, a decode failure,
/// or the end of the sequence.
pub enum ReadEvent {
    Triangle(Triangle),
    Malformed,
    End,
}

/// The fatal run-time error: the source failed to decode the triangle at
/// `index`. Triangles before it have already been emitted and stay valid
/// output for a prefix of the input.
#[derive(Clone, Copy, PartialEq, Eq, Structural, Debug)]
pub struct MeshReadError {
    pub index: usize,
}

/// What the streaming loop must do next: emit one transformed triangle, abort
/// with a read error, or finish.
#[derive(Clone, Copy, PartialEq, Eq, Debug)]
pub enum StepAction {
    Emit(Triangle),
    Abort(MeshReadError),
    Finish,
}

/// The decision step of the streaming loop. `index` is the number of
/// triangles already emitted: a decoded triangle is transformed and emitted
/// at once, a decode failure aborts the run naming that index, and the end of
/// the source finishes the run.
pub fn next_action(m: &AffineMap, index: usize, ev: &ReadEvent) -> (r: StepAction)
    ensures
        match *ev {
            ReadEvent::Triangle(t) => r == StepAction::Emit(spec_transform_triangle(*m, t)),
            ReadEvent::Malformed => r == StepAction::Abort(MeshReadError { index }),
            ReadEvent::End => r == StepAction::Finish,
        },
{
    match ev {
        ReadEvent::Triangle(t) => StepAction::Emit(transform_triangle(m, t)),
        ReadEvent::Malformed => StepAction::Abort(MeshReadError { index }),
        ReadEvent::End => StepAction::Finish,
    }
}

} // verus!
