use model_transform::ops::TransformOp;
use model_transform::parse::parse_args;
use model_transform::parse::parse_vec3;
use model_transform::parse::Command;
use model_transform::parse::ParseError;
use model_transform::vecbits::Vec3Bits;

fn strs(v: &[&str]) -> Vec<String> {
    v.iter().map(|s| s.to_string()).collect()
}

fn vb(x: f32, y: f32, z: f32) -> Vec3Bits {
    Vec3Bits { x: x.to_bits(), y: y.to_bits(), z: z.to_bits() }
}

#[test]
fn parse_vec3_three_fields() {
    let r = parse_vec3("1,2.5,-3").unwrap();
    assert_eq!(r, vb(1.0, 2.5, -3.0));
}

#[test]
fn parse_vec3_two_fields_rejected() {
    assert!(parse_vec3("1,2").is_none());
}

#[test]
fn parse_vec3_four_fields_rejected() {
    assert!(parse_vec3("1,2,3,4").is_none());
}

#[test]
fn parse_vec3_bad_field_rejected() {
    assert!(parse_vec3("1,x,3").is_none());
    assert!(parse_vec3("1,,3").is_none());
    assert!(parse_vec3("").is_none());
}

#[test]
fn scenario_invalid_vector() {
    match parse_args(&strs(&["-t", "1,2"])) {
        Err(ParseError::InvalidVector { value }) => assert_eq!(value, "1,2"),
        other => panic!("expected InvalidVector, got {:?}", other),
    }
}

#[test]
fn scenario_unknown_argument() {
    match parse_args(&strs(&["--bogus"])) {
        Err(ParseError::UnknownArgument { flag }) => assert_eq!(flag, "--bogus"),
        other => panic!("expected UnknownArgument, got {:?}", other),
    }
}

#[test]
fn missing_value_reported() {
    match parse_args(&strs(&["--rx"])) {
        Err(ParseError::MissingValue { flag }) => assert_eq!(flag, "--rx"),
        other => panic!("expected MissingValue, got {:?}", other),
    }
    match parse_args(&strs(&["--mx", "-t"])) {
        Err(ParseError::MissingValue { flag }) => assert_eq!(flag, "-t"),
        other => panic!("expected MissingValue, got {:?}", other),
    }
}

#[test]
fn invalid_number_reported() {
    match parse_args(&strs(&["--ry", "fast"])) {
        Err(ParseError::InvalidNumber { flag, value }) => {
            assert_eq!(flag, "--ry");
            assert_eq!(value, "fast");
        },
        other => panic!("expected InvalidNumber, got {:?}", other),
    }
}

#[test]
fn interleaved_flags_keep_order() {
    let cmd = parse_args(&strs(&["--rx", "1", "--mx", "--rx", "2"])).unwrap();
    match cmd {
        Command::Run(cfg) => {
            assert_eq!(
                cfg.ops,
                vec![
                    TransformOp::RotateX(1.0f32.to_bits()),
                    TransformOp::MirrorX,
                    TransformOp::RotateX(2.0f32.to_bits()),
                ]
            );
        },
        other => panic!("expected Run, got {:?}", other),
    }
}

#[test]
fn all_transform_flags_append() {
    let cmd = parse_args(&strs(&["-t", "1,0,0", "--ry", "0.5", "--rz", "0.25", "--my", "--mz"]))
        .unwrap();
    match cmd {
        Command::Run(cfg) => {
            assert_eq!(
                cfg.ops,
                vec![
                    TransformOp::Translate(vb(1.0, 0.0, 0.0)),
                    TransformOp::RotateY(0.5f32.to_bits()),
                    TransformOp::RotateZ(0.25f32.to_bits()),
                    TransformOp::MirrorY,
                    TransformOp::MirrorZ,
                ]
            );
        },
        other => panic!("expected Run, got {:?}", other),
    }
}

#[test]
fn help_returns_before_later_errors() {
    match parse_args(&strs(&["-h", "--bogus"])) {
        Ok(Command::Help) => {},
        other => panic!("expected Help, got {:?}", other),
    }
    match parse_args(&strs(&["--help"])) {
        Ok(Command::Help) => {},
        other => panic!("expected Help, got {:?}", other),
    }
}

#[test]
fn earlier_error_wins_over_help() {
    match parse_args(&strs(&["--bogus", "-h"])) {
        Err(ParseError::UnknownArgument { flag }) => assert_eq!(flag, "--bogus"),
        other => panic!("expected UnknownArgument, got {:?}", other),
    }
}

#[test]
fn io_paths_last_occurrence_wins() {
    let cmd = parse_args(&strs(&["-i", "a.stl", "-o", "b.stl", "--input", "c.stl"])).unwrap();
    match cmd {
        Command::Run(cfg) => {
            assert_eq!(cfg.input.as_deref(), Some("c.stl"));
            assert_eq!(cfg.output.as_deref(), Some("b.stl"));
            assert!(cfg.ops.is_empty());
        },
        other => panic!("expected Run, got {:?}", other),
    }
}

#[test]
fn empty_arguments_mean_identity_run() {
    let cmd = parse_args(&strs(&[])).unwrap();
    match cmd {
        Command::Run(cfg) => {
            assert!(cfg.ops.is_empty());
            assert!(cfg.input.is_none());
            assert!(cfg.output.is_none());
        },
        other => panic!("expected Run, got {:?}", other),
    }
}
