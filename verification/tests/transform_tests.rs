use model_transform::affine::apply_point;
use model_transform::affine::compose;
use model_transform::affine::identity_map;
use model_transform::affine::mirror_map;
use model_transform::affine::transform_normal;
use model_transform::affine::Axis;
use model_transform::mesh::next_action;
use model_transform::mesh::transform_triangle;
use model_transform::mesh::transform_triangles;
use model_transform::mesh::ReadEvent;
use model_transform::mesh::StepAction;
use model_transform::mesh::Triangle;
use model_transform::ops::compile;
use model_transform::ops::elementary_map;
use model_transform::ops::TransformOp;
use model_transform::vecbits::Vec3Bits;

fn vb(x: f32, y: f32, z: f32) -> Vec3Bits {
    Vec3Bits { x: x.to_bits(), y: y.to_bits(), z: z.to_bits() }
}

fn vf(v: Vec3Bits) -> (f32, f32, f32) {
    (f32::from_bits(v.x), f32::from_bits(v.y), f32::from_bits(v.z))
}

fn close(a: (f32, f32, f32), b: (f32, f32, f32), tol: f32) -> bool {
    (a.0 - b.0).abs() <= tol && (a.1 - b.1).abs() <= tol && (a.2 - b.2).abs() <= tol
}

fn unit_z_triangle() -> Triangle {
    Triangle {
        normal: vb(0.0, 0.0, 1.0),
        vertices: [vb(0.0, 0.0, 0.0), vb(1.0, 0.0, 0.0), vb(0.0, 1.0, 0.0)],
    }
}

#[test]
fn scenario_translate() {
    let m = compile(&vec![TransformOp::Translate(vb(1.0, 0.0, 0.0))]);
    let out = transform_triangle(&m, &unit_z_triangle());
    assert_eq!(vf(out.vertices[0]), (1.0, 0.0, 0.0));
    assert_eq!(vf(out.vertices[1]), (2.0, 0.0, 0.0));
    assert_eq!(vf(out.vertices[2]), (1.0, 1.0, 0.0));
    assert_eq!(vf(out.normal), (0.0, 0.0, 1.0));
}

#[test]
fn scenario_mirror_x() {
    let m = compile(&vec![TransformOp::MirrorX]);
    let out = transform_triangle(&m, &unit_z_triangle());
    assert_eq!(vf(out.vertices[0]), (0.0, 0.0, 0.0));
    assert_eq!(vf(out.vertices[1]), (-1.0, 0.0, 0.0));
    assert_eq!(vf(out.vertices[2]), (0.0, 1.0, 0.0));
    // The linear part is its own inverse transpose, so the normal maps
    // through it unchanged up to the sign of its zero x component.
    assert_eq!(vf(out.normal), (0.0, 0.0, 1.0));
}

#[test]
fn empty_list_compiles_to_identity() {
    let m = compile(&Vec::new());
    assert_eq!(m, identity_map());
    let tri = Triangle {
        normal: vb(0.0, 0.0, 1.0),
        vertices: [vb(0.5, -2.25, 3.75), vb(-1.5, 0.25, -4.0), vb(8.0, 9.5, -0.125)],
    };
    let out = transform_triangle(&m, &tri);
    assert_eq!(vf(out.vertices[0]), (0.5, -2.25, 3.75));
    assert_eq!(vf(out.vertices[1]), (-1.5, 0.25, -4.0));
    assert_eq!(vf(out.vertices[2]), (8.0, 9.5, -0.125));
    assert_eq!(vf(out.normal), (0.0, 0.0, 1.0));
}

#[test]
fn order_of_operations_matters() {
    let quarter = std::f32::consts::FRAC_PI_2.to_bits();
    let rz = TransformOp::RotateZ(quarter);
    let tr = TransformOp::Translate(vb(1.0, 0.0, 0.0));
    let rotate_then_translate = compile(&vec![rz, tr]);
    let translate_then_rotate = compile(&vec![tr, rz]);
    let p = vb(1.0, 0.0, 0.0);
    let a = vf(apply_point(&rotate_then_translate, p));
    let b = vf(apply_point(&translate_then_rotate, p));
    // (1,0,0) goes to about (1,1,0) one way and about (0,2,0) the other.
    assert!(close(a, (1.0, 1.0, 0.0), 1e-5));
    assert!(close(b, (0.0, 2.0, 0.0), 1e-5));
    assert!(!close(a, b, 0.5));
}

#[test]
fn mirror_twice_is_identity() {
    for axis in [Axis::X, Axis::Y, Axis::Z] {
        let m = compose(&mirror_map(axis), &mirror_map(axis));
        assert_eq!(m, identity_map());
    }
    let m = compile(&vec![TransformOp::MirrorY, TransformOp::MirrorY]);
    assert_eq!(m, identity_map());
    let tri = unit_z_triangle();
    let out = transform_triangle(&m, &tri);
    for k in 0..3 {
        assert!(close(vf(out.vertices[k]), vf(tri.vertices[k]), 1e-6));
    }
    assert!(close(vf(out.normal), vf(tri.normal), 1e-6));
}

#[test]
fn normals_stay_unit_length_under_rotations_and_mirrors() {
    let ops = vec![
        TransformOp::RotateX(0.7f32.to_bits()),
        TransformOp::MirrorY,
        TransformOp::RotateZ(1.3f32.to_bits()),
        TransformOp::RotateY((-2.1f32).to_bits()),
        TransformOp::MirrorZ,
    ];
    let m = compile(&ops);
    for n in [vb(0.0, 0.0, 1.0), vb(1.0, 0.0, 0.0), vb(0.6, 0.8, 0.0)] {
        let (x, y, z) = vf(transform_normal(&m, n));
        let len = (x * x + y * y + z * z).sqrt();
        assert!((len - 1.0).abs() < 1e-5, "length {} not within tolerance", len);
    }
}

#[test]
fn translation_never_alters_a_normal() {
    for t in [vb(5.0, -3.0, 2.0), vb(0.0, 1000.5, -0.25), vb(-7.125, 0.0, 9.0)] {
        let m = compile(&vec![TransformOp::Translate(t)]);
        for n in [vb(0.0, 0.0, 1.0), vb(0.6, 0.8, 0.0), vb(-1.0, 0.0, 0.0)] {
            let out = vf(transform_normal(&m, n));
            assert!(close(out, vf(n), 1e-6));
        }
    }
}

#[test]
fn composite_equals_sequential_application() {
    // Dyadic values keep every step exact, so the composed map and the
    // one-by-one application agree bit for bit here.
    let ops = vec![
        TransformOp::Translate(vb(1.0, 2.0, 3.0)),
        TransformOp::MirrorZ,
        TransformOp::Translate(vb(-0.5, 0.25, 4.0)),
    ];
    let m = compile(&ops);
    let p = vb(1.5, -2.0, 3.25);
    let composed = vf(apply_point(&m, p));
    let mut q = p;
    for op in &ops {
        let e = elementary_map(op);
        q = apply_point(&e, q);
    }
    assert_eq!(composed, vf(q));
}

#[test]
fn rotation_moves_points() {
    let quarter = std::f32::consts::FRAC_PI_2.to_bits();
    let m = compile(&vec![TransformOp::RotateZ(quarter)]);
    let out = vf(apply_point(&m, vb(1.0, 0.0, 0.0)));
    assert!(close(out, (0.0, 1.0, 0.0), 1e-6));
}

#[test]
fn normal_is_renormalized() {
    let m = compile(&Vec::new());
    let out = vf(transform_normal(&m, vb(0.0, 0.0, 2.0)));
    assert_eq!(out, (0.0, 0.0, 1.0));
}

#[test]
fn batch_transform_preserves_order_and_length() {
    let m = compile(&vec![TransformOp::Translate(vb(0.0, 0.0, 1.0))]);
    let t1 = unit_z_triangle();
    let mut t2 = unit_z_triangle();
    t2.vertices[0] = vb(9.0, 9.0, 9.0);
    let out = transform_triangles(&m, &vec![t1, t2]);
    assert_eq!(out.len(), 2);
    assert_eq!(vf(out[0].vertices[0]), (0.0, 0.0, 1.0));
    assert_eq!(vf(out[1].vertices[0]), (9.0, 9.0, 10.0));
}

#[test]
fn arguments_to_transformed_triangle() {
    let args: Vec<String> = ["-t", "1,0,0"].iter().map(|s| s.to_string()).collect();
    let cfg = match model_transform::parse::parse_args(&args) {
        Ok(model_transform::parse::Command::Run(cfg)) => cfg,
        other => panic!("expected Run, got {:?}", other),
    };
    let m = compile(&cfg.ops);
    let out = transform_triangle(&m, &unit_z_triangle());
    assert_eq!(vf(out.vertices[1]), (2.0, 0.0, 0.0));
    assert_eq!(vf(out.normal), (0.0, 0.0, 1.0));
}

#[test]
fn streaming_step_actions() {
    let m = compile(&vec![TransformOp::Translate(vb(1.0, 0.0, 0.0))]);
    match next_action(&m, 0, &ReadEvent::Triangle(unit_z_triangle())) {
        StepAction::Emit(t) => assert_eq!(vf(t.vertices[1]), (2.0, 0.0, 0.0)),
        other => panic!("expected Emit, got {:?}", other),
    }
    match next_action(&m, 3, &ReadEvent::Malformed) {
        StepAction::Abort(e) => assert_eq!(e.index, 3),
        other => panic!("expected Abort, got {:?}", other),
    }
    match next_action(&m, 7, &ReadEvent::End) {
        StepAction::Finish => {},
        other => panic!("expected Finish, got {:?}", other),
    }
}
