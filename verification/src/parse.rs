//! The operation parser: from raw argument strings to a typed operation list.
//!
//! Arguments are processed in the exact sequence they appear, never grouped
//! by flag name, so differently named flags interleave into the operation
//! list in the order the user wrote them. The spec-level outcome
//! [`spec_parse_args`] pins the parse down for every input, relative only to
//! the named result of the floating-point literal parser.

use vstd::prelude::*;
use vstd::string::StrSliceExecFns;

use crate::ops::OperationList;
use crate::ops::TransformOp;
use crate::vecbits::Vec3Bits;

verus! {

/// What `str::parse::<f32>` returns on the given characters: the bit pattern
/// of the parsed value, or `None` for text that is not a binary32 literal.
pub uninterp spec fn parsed_f32_bits(s: Seq<char>) -> Option<u32>;

/// Relies on `str::parse::<f32>` (std), a pure function of the characters,
/// named by `parsed_f32_bits`.
#[verifier::external_body]
pub(crate) fn parse_f32_bits(s: &str) -> (r: Option<u32>)
    ensures
        r == parsed_f32_bits(s@),
{
    match s.parse() {
        Ok(v) => Some(glam::Vec3::splat(v).x.to_bits()),
        Err(_) => None,
    }
}

/// Compares two string slices character by character.
pub fn str_eq(a: &str, b: &str) -> (r: bool)
    ensures
        r == (a@ == b@),
{
    let la = a.unicode_len();
    let lb = b.unicode_len();
    if la != lb {
        return false;
    }
    let mut k: usize = 0;
    while k < la
        invariant
            la as nat == a@.len(),
            lb as nat == b@.len(),
            la == lb,
            k <= la,
            forall|j: int| 0 <= j < k as int ==> a@[j] == b@[j],
        decreases la - k,
    {
        if a.get_char(k) != b.get_char(k) {
            return false;
        }
        k = k + 1;
    }
    proof {
        assert(a@ =~= b@);
    }
    true
}

/// Positions `i < j` hold commas and no other position does.
pub open spec fn comma_pair(s: Seq<char>, i: int, j: int) -> bool {
    &&& 0 <= i < j < s.len()
    &&& s[i] == ','
    &&& s[j] == ','
    &&& forall|k: int| 0 <= k < s.len() && s[k] == ',' ==> k == i || k == j
}

/// The translate argument: exactly three comma-separated fields, each a
/// binary32 literal. Any other comma count, or a field that does not parse,
/// is rejected.
pub open spec fn spec_parse_vec3(s: Seq<char>) -> Option<Vec3Bits> {
    if exists|i: int, j: int| comma_pair(s, i, j) {
        let (i, j) = choose|i: int, j: int| comma_pair(s, i, j);
        let tx = parsed_f32_bits(s.subrange(0, i));
        let ty = parsed_f32_bits(s.subrange(i + 1, j));
        let tz = parsed_f32_bits(s.subrange(j + 1, s.len() as int));
        if tx is Some && ty is Some && tz is Some {
            Some(Vec3Bits { x: tx->0, y: ty->0, z: tz->0 })
        } else {
            None
        }
    } else {
        None
    }
}

/// Parses an `"X,Y,Z"` argument into a bit-pattern vector: splits at the
/// commas, of which there must be exactly two, and parses each field.
pub fn parse_vec3(s: &str) -> (r: Option<Vec3Bits>)
    ensures
        r == spec_parse_vec3(s@),
{
    let len = s.unicode_len();
    let mut c1: usize = 0;
    let mut c2: usize = 0;
    let mut has1 = false;
    let mut has2 = false;
    let mut has3 = false;
    let ghost mut c3: int = 0;
    let mut k: usize = 0;
    while k < len
        invariant
            len as nat == s@.len(),
            k <= len,
            has2 ==> has1,
            has3 ==> has2,
            has1 ==> (c1 as int) < k as int && s@[c1 as int] == ',',
            has2 ==> (c1 as int) < (c2 as int) && (c2 as int) < k as int && s@[c2 as int] == ',',
            has3 ==> (c2 as int) < c3 && c3 < k as int && s@[c3] == ',',
            !has1 ==> (forall|j: int| 0 <= j < k as int ==> s@[j] != ','),
            has1 && !has2 ==> (forall|j: int|
                0 <= j < k as int && s@[j] == ',' ==> j == c1 as int),
            has2 && !has3 ==> (forall|j: int|
                0 <= j < k as int && s@[j] == ',' ==> j == c1 as int || j == c2 as int),
        decreases len - k,
    {
        if s.get_char(k) == ',' {
            if !has1 {
                c1 = k;
                has1 = true;
            } else if !has2 {
                c2 = k;
                has2 = true;
            } else if !has3 {
                proof {
                    c3 = k as int;
                }
                has3 = true;
            }
        }
        k = k + 1;
    }
    if !has2 || has3 {
        proof {
            assert forall|i: int, j: int| !comma_pair(s@, i, j) by {
                if comma_pair(s@, i, j) {
                    if !has1 {
                        assert(s@[i] != ',');
                    } else if !has2 {
                        assert(i == c1 as int && j == c1 as int);
                    } else {
                        assert(i == c1 as int || i == c2 as int);
                        assert(j == c1 as int || j == c2 as int);
                        assert(c3 == i || c3 == j);
                    }
                }
            }
        }
        return None;
    }
    proof {
        assert(comma_pair(s@, c1 as int, c2 as int));
        let (i, j) = choose|i: int, j: int| comma_pair(s@, i, j);
        assert(i == c1 as int && j == c2 as int);
    }
    let t0 = s.substring_char(0, c1);
    let t1 = s.substring_char(c1 + 1, c2);
    let t2 = s.substring_char(c2 + 1, len);
    let x = parse_f32_bits(t0);
    let y = parse_f32_bits(t1);
    let z = parse_f32_bits(t2);
    match (x, y, z) {
        (Some(xb), Some(yb), Some(zb)) => Some(Vec3Bits { x: xb, y: yb, z: zb }),
        _ => None,
    }
}

/// A parse-time error, identifying the offending flag or value.
#[derive(Clone, PartialEq, Eq, Debug)]
pub enum ParseError {
    /// A flag that takes one binary32 number got text that does not parse.
    InvalidNumber { flag: String, value: String },
    /// The translate flag's value is not three comma-separated numbers.
    InvalidVector { value: String },
    /// A flag that this tool does not recognize.
    UnknownArgument { flag: String },
    /// A flag that takes a value stood last, with nothing after it.
    MissingValue { flag: String },
}

/// The spec-level image of a [`ParseError`].
pub enum SpecError {
    InvalidNumber { flag: Seq<char>, value: Seq<char> },
    InvalidVector { value: Seq<char> },
    UnknownArgument { flag: Seq<char> },
    MissingValue { flag: Seq<char> },
}

/// The spec-level outcome of a parse: the help request, a run configuration,
/// or a failure.
pub enum SpecOutcome {
    Help,
    Run { ops: Seq<TransformOp>, input: Option<Seq<char>>, output: Option<Seq<char>> },
    Fail(SpecError),
}

/// A parsed run: the ordered operation list and the optional input and
/// output paths (absence means the standard streams).
#[derive(Clone, PartialEq, Eq, Debug)]
pub struct RunConfig {
    pub ops: OperationList,
    pub input: Option<String>,
    pub output: Option<String>,
}

/// What the arguments asked for: the help text, or a run.
#[derive(Clone, PartialEq, Eq, Debug)]
pub enum Command {
    Help,
    Run(RunConfig),
}

/// The spec-level image of an exec error.
pub open spec fn err_view(e: ParseError) -> SpecError {
    match e {
        ParseError::InvalidNumber { flag, value } => SpecError::InvalidNumber {
            flag: flag@,
            value: value@,
        },
        ParseError::InvalidVector { value } => SpecError::InvalidVector { value: value@ },
        ParseError::UnknownArgument { flag } => SpecError::UnknownArgument { flag: flag@ },
        ParseError::MissingValue { flag } => SpecError::MissingValue { flag: flag@ },
    }
}

/// The spec-level image of an optional path.
pub open spec fn opt_view(o: Option<String>) -> Option<Seq<char>> {
    match o {
        Some(s) => Some(s@),
        None => None,
    }
}

/// The spec-level image of an exec command.
pub open spec fn cmd_view(c: Command) -> SpecOutcome {
    match c {
        Command::Help => SpecOutcome::Help,
        Command::Run(rc) => SpecOutcome::Run {
            ops: rc.ops@,
            input: opt_view(rc.input),
            output: opt_view(rc.output),
        },
    }
}

/// Prepends one operation to the outcome of the remaining arguments.
pub open spec fn with_op(op: TransformOp, rest: SpecOutcome) -> SpecOutcome {
    match rest {
        SpecOutcome::Run { ops, input, output } => SpecOutcome::Run {
            ops: seq![op] + ops,
            input,
            output,
        },
        _ => rest,
    }
}

/// Supplies the input path unless a later occurrence already set it: the last
/// occurrence on the command line wins.
pub open spec fn with_input(val: Seq<char>, rest: SpecOutcome) -> SpecOutcome {
    match rest {
        SpecOutcome::Run { ops, input, output } => SpecOutcome::Run {
            ops,
            input: if input is Some {
                input
            } else {
                Some(val)
            },
            output,
        },
        _ => rest,
    }
}

/// Supplies the output path unless a later occurrence already set it.
pub open spec fn with_output(val: Seq<char>, rest: SpecOutcome) -> SpecOutcome {
    match rest {
        SpecOutcome::Run { ops, input, output } => SpecOutcome::Run {
            ops,
            input,
            output: if output is Some {
                output
            } else {
                Some(val)
            },
        },
        _ => rest,
    }
}

/// The rotation operation a rotation flag appends.
pub open spec fn rot_op(flag: Seq<char>, bits: u32) -> TransformOp {
    if flag == "--rx"@ {
        TransformOp::RotateX(bits)
    } else if flag == "--ry"@ {
        TransformOp::RotateY(bits)
    } else {
        TransformOp::RotateZ(bits)
    }
}

/// The outcome of parsing the arguments from position `i` on, in the exact
/// order they stand: help returns at once, a flag that takes a value consumes
/// the next argument, and the first offending argument fails the whole parse.
pub open spec fn spec_parse_from(args: Seq<Seq<char>>, i: int) -> SpecOutcome
    decreases args.len() - i,
{
    if i < 0 || i >= args.len() {
        SpecOutcome::Run { ops: Seq::empty(), input: None, output: None }
    } else {
        let a = args[i];
        if a == "-h"@ || a == "--help"@ {
            SpecOutcome::Help
        } else if a == "-o"@ || a == "--output"@ {
            if i + 1 >= args.len() {
                SpecOutcome::Fail(SpecError::MissingValue { flag: a })
            } else {
                with_output(args[i + 1], spec_parse_from(args, i + 2))
            }
        } else if a == "-i"@ || a == "--input"@ {
            if i + 1 >= args.len() {
                SpecOutcome::Fail(SpecError::MissingValue { flag: a })
            } else {
                with_input(args[i + 1], spec_parse_from(args, i + 2))
            }
        } else if a == "-t"@ || a == "--translate"@ {
            if i + 1 >= args.len() {
                SpecOutcome::Fail(SpecError::MissingValue { flag: a })
            } else {
                match spec_parse_vec3(args[i + 1]) {
                    Some(v) => with_op(TransformOp::Translate(v), spec_parse_from(args, i + 2)),
                    None => SpecOutcome::Fail(SpecError::InvalidVector { value: args[i + 1] }),
                }
            }
        } else if a == "--rx"@ || a == "--ry"@ || a == "--rz"@ {
            if i + 1 >= args.len() {
                SpecOutcome::Fail(SpecError::MissingValue { flag: a })
            } else {
                match parsed_f32_bits(args[i + 1]) {
                    Some(b) => with_op(rot_op(a, b), spec_parse_from(args, i + 2)),
                    None => SpecOutcome::Fail(
                        SpecError::InvalidNumber { flag: a, value: args[i + 1] },
                    ),
                }
            }
        } else if a == "--mx"@ {
            with_op(TransformOp::MirrorX, spec_parse_from(args, i + 1))
        } else if a == "--my"@ {
            with_op(TransformOp::MirrorY, spec_parse_from(args, i + 1))
        } else if a == "--mz"@ {
            with_op(TransformOp::MirrorZ, spec_parse_from(args, i + 1))
        } else {
            SpecOutcome::Fail(SpecError::UnknownArgument { flag: a })
        }
    }
}

/// The outcome of parsing the whole argument sequence.
pub open spec fn spec_parse_args(args: Seq<Seq<char>>) -> SpecOutcome {
    spec_parse_from(args, 0)
}

/// Folds an already-parsed prefix (operations, input, output) over the
/// outcome of the remaining arguments: later occurrences of the path flags
/// win, and the prefix operations come first.
pub open spec fn absorb(
    ops: Seq<TransformOp>,
    input: Option<Seq<char>>,
    output: Option<Seq<char>>,
    rest: SpecOutcome,
) -> SpecOutcome {
    match rest {
        SpecOutcome::Run { ops: tops, input: tin, output: tout } => SpecOutcome::Run {
            ops: ops + tops,
            input: if tin is Some {
                tin
            } else {
                input
            },
            output: if tout is Some {
                tout
            } else {
                output
            },
        },
        _ => rest,
    }
}

proof fn lemma_absorb_nothing(rest: SpecOutcome)
    ensures
        absorb(Seq::empty(), None, None, rest) == rest,
{
    match rest {
        SpecOutcome::Run { ops, input, output } => {
            assert(Seq::<TransformOp>::empty() + ops =~= ops);
        },
        _ => {},
    }
}

proof fn lemma_absorb_op(
    pre: Seq<TransformOp>,
    input: Option<Seq<char>>,
    output: Option<Seq<char>>,
    op: TransformOp,
    rest: SpecOutcome,
)
    ensures
        absorb(pre.push(op), input, output, rest) == absorb(pre, input, output, with_op(op, rest)),
{
    match rest {
        SpecOutcome::Run { ops, input: tin, output: tout } => {
            assert(pre.push(op) + ops =~= pre + (seq![op] + ops));
        },
        _ => {},
    }
}

proof fn lemma_absorb_input(
    ops: Seq<TransformOp>,
    old_in: Option<Seq<char>>,
    output: Option<Seq<char>>,
    val: Seq<char>,
    rest: SpecOutcome,
)
    ensures
        absorb(ops, Some(val), output, rest) == absorb(ops, old_in, output, with_input(val, rest)),
{
}

proof fn lemma_absorb_output(
    ops: Seq<TransformOp>,
    input: Option<Seq<char>>,
    old_out: Option<Seq<char>>,
    val: Seq<char>,
    rest: SpecOutcome,
)
    ensures
        absorb(ops, input, Some(val), rest) == absorb(ops, input, old_out, with_output(val, rest)),
{
}

/// Parses the raw argument sequence, in the exact order supplied, into a
/// command or the first error. The outcome is exactly `spec_parse_args` of
/// the arguments' characters.
pub fn parse_args(args: &Vec<String>) -> (r: Result<Command, ParseError>)
    ensures
        match r {
            Ok(c) => cmd_view(c) == spec_parse_args(args.deep_view()),
            Err(e) => spec_parse_args(args.deep_view()) == SpecOutcome::Fail(err_view(e)),
        },
{
    let ghost whole: Seq<Seq<char>> = args.deep_view();
    let mut ops: OperationList = Vec::new();
    let mut input: Option<String> = None;
    let mut output: Option<String> = None;
    let mut i: usize = 0;
    proof {
        lemma_absorb_nothing(spec_parse_from(whole, 0));
    }
    while i < args.len()
        invariant
            i <= args@.len(),
            whole == args.deep_view(),
            whole.len() == args@.len(),
            absorb(ops@, opt_view(input), opt_view(output), spec_parse_from(whole, i as int))
                == spec_parse_from(whole, 0),
        decreases args@.len() - i,
    {
        proof {
            assert(whole[i as int] == args@[i as int]@);
        }
        let a = args[i].as_str();
        let ghost rest_two = spec_parse_from(whole, i as int + 2);
        if str_eq(a, "-h") || str_eq(a, "--help") {
            return Ok(Command::Help);
        } else if str_eq(a, "-o") || str_eq(a, "--output") {
            if i + 1 >= args.len() {
                return Err(ParseError::MissingValue { flag: args[i].clone() });
            }
            proof {
                assert(whole[i as int + 1] == args@[i as int + 1]@);
                lemma_absorb_output(ops@, opt_view(input), opt_view(output), whole[i as int + 1],
                    rest_two);
            }
            output = Some(args[i + 1].clone());
            i = i + 2;
        } else if str_eq(a, "-i") || str_eq(a, "--input") {
            if i + 1 >= args.len() {
                return Err(ParseError::MissingValue { flag: args[i].clone() });
            }
            proof {
                assert(whole[i as int + 1] == args@[i as int + 1]@);
                lemma_absorb_input(ops@, opt_view(input), opt_view(output), whole[i as int + 1],
                    rest_two);
            }
            input = Some(args[i + 1].clone());
            i = i + 2;
        } else if str_eq(a, "-t") || str_eq(a, "--translate") {
            if i + 1 >= args.len() {
                return Err(ParseError::MissingValue { flag: args[i].clone() });
            }
            proof {
                assert(whole[i as int + 1] == args@[i as int + 1]@);
            }
            match parse_vec3(args[i + 1].as_str()) {
                Some(v) => {
                    proof {
                        lemma_absorb_op(ops@, opt_view(input), opt_view(output),
                            TransformOp::Translate(v), rest_two);
                    }
                    ops.push(TransformOp::Translate(v));
                    i = i + 2;
                },
                None => {
                    return Err(ParseError::InvalidVector { value: args[i + 1].clone() });
                },
            }
        } else if str_eq(a, "--rx") || str_eq(a, "--ry") || str_eq(a, "--rz") {
            if i + 1 >= args.len() {
                return Err(ParseError::MissingValue { flag: args[i].clone() });
            }
            proof {
                assert(whole[i as int + 1] == args@[i as int + 1]@);
            }
            match parse_f32_bits(args[i + 1].as_str()) {
                Some(b) => {
                    let op = if str_eq(a, "--rx") {
                        TransformOp::RotateX(b)
                    } else if str_eq(a, "--ry") {
                        TransformOp::RotateY(b)
                    } else {
                        TransformOp::RotateZ(b)
                    };
                    proof {
                        assert(op == rot_op(whole[i as int], b));
                        lemma_absorb_op(ops@, opt_view(input), opt_view(output), op, rest_two);
                    }
                    ops.push(op);
                    i = i + 2;
                },
                None => {
                    return Err(ParseError::InvalidNumber {
                        flag: args[i].clone(),
                        value: args[i + 1].clone(),
                    });
                },
            }
        } else if str_eq(a, "--mx") {
            proof {
                lemma_absorb_op(ops@, opt_view(input), opt_view(output), TransformOp::MirrorX,
                    spec_parse_from(whole, i as int + 1));
            }
            ops.push(TransformOp::MirrorX);
            i = i + 1;
        } else if str_eq(a, "--my") {
            proof {
                lemma_absorb_op(ops@, opt_view(input), opt_view(output), TransformOp::MirrorY,
                    spec_parse_from(whole, i as int + 1));
            }
            ops.push(TransformOp::MirrorY);
            i = i + 1;
        } else if str_eq(a, "--mz") {
            proof {
                lemma_absorb_op(ops@, opt_view(input), opt_view(output), TransformOp::MirrorZ,
                    spec_parse_from(whole, i as int + 1));
            }
            ops.push(TransformOp::MirrorZ);
            i = i + 1;
        } else {
            return Err(ParseError::UnknownArgument { flag: args[i].clone() });
        }
    }
    proof {
        assert(ops@ + Seq::<TransformOp>::empty() =~= ops@);
    }
    Ok(Command::Run(RunConfig { ops, input, output }))
}

} // verus!
