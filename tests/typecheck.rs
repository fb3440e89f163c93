use stackcheck::checker::{typecheck, MAX_DEPTH};
use stackcheck::diagnostic::format_error;
use stackcheck::error::{TypeError, TypeErrorKind};
use stackcheck::types::{BrLabel, FnLabel, Instr, InstrKind, Intrinsic, Literal, Producer, Span, Type};

fn at(kind: InstrKind, start: usize) -> Instr {
    Instr::new(kind, Span::new(start, start + 1))
}

fn label(name: &str) -> InstrKind {
    InstrKind::FnLabel { label: FnLabel::new(name.to_string()) }
}

fn call(name: &str) -> InstrKind {
    InstrKind::Call { to: FnLabel::new(name.to_string()) }
}

fn push_int(v: i64) -> InstrKind {
    InstrKind::Push { value: Literal::Int(v) }
}

fn push_bool(v: bool) -> InstrKind {
    InstrKind::Push { value: Literal::Bool(v) }
}

fn br(id: u64, producer: Producer) -> InstrKind {
    InstrKind::BrLabel { label: BrLabel { id }, producer }
}

fn bne(id: u64) -> InstrKind {
    InstrKind::Bne { to: BrLabel { id } }
}

fn bra(id: u64) -> InstrKind {
    InstrKind::Bra { to: BrLabel { id } }
}

fn int_ptr() -> InstrKind {
    InstrKind::Intrinsic(Intrinsic {
        name: "alloc".to_string(),
        takes: vec![],
        gives: vec![Type::ptr(Type::Int)],
    })
}

/// `main` made of the given body, ending in `Return`.
fn program(body: Vec<InstrKind>) -> Vec<Instr> {
    let mut code = vec![at(label("main"), 0)];
    let mut pos = 1;
    for k in body {
        code.push(at(k, pos));
        pos += 1;
    }
    code.push(at(InstrKind::Return, pos));
    code
}

fn kind_of(r: Result<(), TypeError>) -> TypeErrorKind {
    match r {
        Err(e) => e.kind,
        Ok(()) => panic!("the check passed"),
    }
}

fn leftover(r: Result<(), TypeError>) -> Vec<Type> {
    match kind_of(r) {
        TypeErrorKind::InvalidMain { got } => got,
        other => panic!("unexpected error {:?}", other),
    }
}

fn mismatch(r: Result<(), TypeError>) -> (Vec<Type>, Vec<Type>) {
    match kind_of(r) {
        TypeErrorKind::Mismatch { want, got } => (want, got),
        other => panic!("unexpected error {:?}", other),
    }
}

#[test]
fn empty_bytecode_misses_main() {
    let r = typecheck(vec![]);
    let e = r.unwrap_err();
    assert!(matches!(e.kind, TypeErrorKind::MissingMain));
    assert!(e.file_span.is_none());
}

#[test]
fn other_function_without_main_misses_main() {
    let code = vec![at(label("start"), 0), at(InstrKind::Return, 1)];
    assert!(matches!(kind_of(typecheck(code)), TypeErrorKind::MissingMain));
}

#[test]
fn leftover_types_make_main_invalid() {
    let r = typecheck(program(vec![push_int(1), push_bool(true)]));
    assert_eq!(leftover(r), vec![Type::Int, Type::Bool]);
}

#[test]
fn empty_main_passes() {
    assert!(typecheck(program(vec![])).is_ok());
}

#[test]
fn push_then_drop_passes() {
    assert!(typecheck(program(vec![push_int(5), InstrKind::Drop])).is_ok());
}

#[test]
fn add_on_boolean_mismatches() {
    let r = typecheck(program(vec![push_int(1), push_bool(true), InstrKind::Add]));
    let e = r.unwrap_err();
    let fs = e.file_span.as_ref().unwrap();
    assert_eq!(fs.span, Span::new(3, 4));
    assert_eq!(fs.file, "unknown");
    let (want, got) = mismatch(Err(e));
    assert_eq!(want, vec![Type::Int, Type::Int]);
    assert_eq!(got, vec![Type::Bool, Type::Int]);
}

#[test]
fn errors_name_the_last_file_marker() {
    let code = program(vec![
        InstrKind::FileStart { name: "lib.stk".to_string() },
        push_bool(true),
        InstrKind::Sub,
    ]);
    let e = typecheck(code).unwrap_err();
    let fs = e.file_span.unwrap();
    assert_eq!(fs.file, "lib.stk");
    assert_eq!(fs.span, Span::new(3, 4));
}

#[test]
fn comparison_leaves_boolean() {
    let r = typecheck(program(vec![push_int(1), push_int(2), InstrKind::Lt]));
    assert_eq!(leftover(r), vec![Type::Bool]);
}

#[test]
fn logic_wants_booleans() {
    let (want, got) = mismatch(typecheck(program(vec![push_bool(true), push_int(2), InstrKind::And])));
    assert_eq!(want, vec![Type::Bool, Type::Bool]);
    assert_eq!(got, vec![Type::Int, Type::Bool]);
    assert_eq!(leftover(typecheck(program(vec![push_bool(true), InstrKind::Not]))), vec![Type::Bool]);
}

#[test]
fn arithmetic_on_short_stack_reports_what_is_there() {
    let (want, got) = mismatch(typecheck(program(vec![push_int(1), InstrKind::Mul])));
    assert_eq!(want, vec![Type::Int, Type::Int]);
    assert_eq!(got, vec![Type::Int]);
}

#[test]
fn bare_if_that_pushes_fails() {
    let r = typecheck(program(vec![push_bool(true), bne(0), push_int(1), br(0, Producer::If)]));
    let e = r.unwrap_err();
    assert!(matches!(e.kind, TypeErrorKind::BranchesNotEmpty));
    assert_eq!(e.file_span.unwrap().span, Span::new(2, 3));
}

#[test]
fn neutral_bare_if_passes() {
    let r = typecheck(program(vec![push_bool(true), bne(0), push_int(1), InstrKind::Drop, br(0, Producer::If)]));
    assert!(r.is_ok());
}

#[test]
fn if_else_with_unequal_arms_fails() {
    let r = typecheck(program(vec![
        push_bool(true),
        bne(0),
        push_int(1),
        bra(1),
        br(0, Producer::If),
        push_bool(false),
        br(1, Producer::Else),
        InstrKind::Drop,
    ]));
    assert!(matches!(kind_of(r), TypeErrorKind::BranchesNotEqual));
}

#[test]
fn if_else_with_equal_arms_leaves_one_integer() {
    let r = typecheck(program(vec![
        push_bool(true),
        bne(0),
        push_int(1),
        bra(1),
        br(0, Producer::If),
        push_int(2),
        br(1, Producer::Else),
    ]));
    assert_eq!(leftover(r), vec![Type::Int]);
}

#[test]
fn neutral_loop_passes() {
    let r = typecheck(program(vec![br(0, Producer::Loop), push_int(1), InstrKind::Drop, bra(0)]));
    assert!(r.is_ok());
}

#[test]
fn growing_loop_fails() {
    let r = typecheck(program(vec![br(0, Producer::Loop), push_int(1), bra(0)]));
    assert!(matches!(kind_of(r), TypeErrorKind::BranchesNotEmpty));
}

#[test]
fn unknown_function_is_named() {
    match kind_of(typecheck(program(vec![call("helper")]))) {
        TypeErrorKind::UnknownFn { name } => assert_eq!(name, "helper"),
        other => panic!("unexpected error {:?}", other),
    }
}

#[test]
fn call_runs_callee_on_callers_stack() {
    let mut code = program(vec![push_int(3), call("twice")]);
    code.push(at(label("twice"), 10));
    code.push(at(InstrKind::Copy, 11));
    code.push(at(InstrKind::Add, 12));
    code.push(at(InstrKind::Return, 13));
    assert_eq!(leftover(typecheck(code)), vec![Type::Int]);
}

#[test]
fn callee_error_keeps_its_own_location() {
    let mut code = program(vec![call("bad")]);
    code.push(at(label("bad"), 10));
    code.push(at(InstrKind::Drop, 11));
    code.push(at(InstrKind::Return, 12));
    let e = typecheck(code).unwrap_err();
    assert_eq!(e.file_span.unwrap().span, Span::new(11, 12));
}

#[test]
fn self_recursion_is_too_deep() {
    let mut code = program(vec![call("again")]);
    code.push(at(label("again"), 10));
    code.push(at(call("again"), 11));
    code.push(at(InstrKind::Return, 12));
    assert!(MAX_DEPTH > 0);
    assert!(matches!(kind_of(typecheck(code)), TypeErrorKind::TooDeep));
}

#[test]
fn write_of_boolean_through_integer_pointer_mismatches() {
    let (want, got) = mismatch(typecheck(program(vec![push_bool(true), int_ptr(), InstrKind::Write])));
    assert_eq!(want, vec![Type::ptr(Type::Bool), Type::Any]);
    assert_eq!(got, vec![Type::ptr(Type::Int), Type::Bool]);
}

#[test]
fn write_of_matching_type_leaves_value() {
    let r = typecheck(program(vec![push_int(4), int_ptr(), InstrKind::Write]));
    assert_eq!(leftover(r), vec![Type::Int]);
}

#[test]
fn write_without_pointer_mismatches() {
    let (want, got) = mismatch(typecheck(program(vec![push_int(4), push_int(5), InstrKind::Write])));
    assert_eq!(want, vec![Type::ptr(Type::Any), Type::Any]);
    assert_eq!(got, vec![Type::Int, Type::Int]);
}

#[test]
fn read_through_pointer_gives_target() {
    assert_eq!(leftover(typecheck(program(vec![int_ptr(), InstrKind::Read]))), vec![Type::Int]);
    let (want, got) = mismatch(typecheck(program(vec![push_int(1), InstrKind::Read])));
    assert_eq!(want, vec![Type::ptr(Type::Any)]);
    assert_eq!(got, vec![Type::Int]);
}

#[test]
fn intrinsic_signature_is_applied() {
    let add_like = InstrKind::Intrinsic(Intrinsic {
        name: "mix".to_string(),
        takes: vec![Type::Int, Type::Any],
        gives: vec![Type::Bool, Type::Int],
    });
    let r = typecheck(program(vec![push_bool(true), push_int(1), add_like]));
    assert_eq!(leftover(r), vec![Type::Bool, Type::Int]);
}

#[test]
fn drop_on_empty_stack_mismatches() {
    let (want, got) = mismatch(typecheck(program(vec![InstrKind::Drop])));
    assert_eq!(want, vec![Type::Any]);
    assert!(got.is_empty());
}

#[test]
fn stack_shuffles() {
    assert_eq!(leftover(typecheck(program(vec![push_int(1), push_bool(true), InstrKind::Swap]))), vec![Type::Bool, Type::Int]);
    assert_eq!(
        leftover(typecheck(program(vec![push_int(1), push_bool(true), InstrKind::Over]))),
        vec![Type::Int, Type::Bool, Type::Int]
    );
    assert_eq!(leftover(typecheck(program(vec![push_bool(true), InstrKind::Copy]))), vec![Type::Bool, Type::Bool]);
    assert_eq!(
        leftover(typecheck(program(vec![push_int(1), push_bool(true), push_bool(false), push_bool(true), InstrKind::Rot3]))),
        vec![Type::Bool, Type::Bool, Type::Bool, Type::Int]
    );
    assert_eq!(
        leftover(typecheck(program(vec![push_int(1), push_bool(true), push_bool(false), push_bool(true), push_bool(true), InstrKind::Rot4]))),
        vec![Type::Bool, Type::Bool, Type::Bool, Type::Bool, Type::Int]
    );
}

#[test]
fn rotation_on_shallow_stack_mismatches() {
    let (want, got) = mismatch(typecheck(program(vec![push_int(1), push_bool(true), push_bool(false), InstrKind::Rot3])));
    assert_eq!(want, vec![Type::Any, Type::Any, Type::Any]);
    assert_eq!(got, vec![Type::Bool, Type::Bool, Type::Int]);
    let (want, _) = mismatch(typecheck(program(vec![push_int(1), InstrKind::Swap])));
    assert_eq!(want, vec![Type::Any, Type::Any]);
}

#[test]
fn unpaired_branch_is_malformed() {
    let r = typecheck(program(vec![push_bool(true), bne(7)]));
    assert!(matches!(kind_of(r), TypeErrorKind::Malformed));
    let no_return = vec![at(label("main"), 0), at(push_int(1), 1)];
    assert!(matches!(kind_of(typecheck(no_return)), TypeErrorKind::Malformed));
}

#[test]
fn checking_twice_gives_the_same_result() {
    let body = || vec![push_int(1), push_bool(true), InstrKind::Add];
    let a = typecheck(program(body())).unwrap_err();
    let b = typecheck(program(body())).unwrap_err();
    assert_eq!(format!("{:?}", a), format!("{:?}", b));
    assert!(typecheck(program(vec![])).is_ok() && typecheck(program(vec![])).is_ok());
}

#[test]
fn mismatch_diagnostic_lists_types() {
    let e = typecheck(program(vec![push_int(1), push_bool(true), InstrKind::Add])).unwrap_err();
    let d = format_error(&e);
    assert_eq!(d.message, "type mismatch");
    assert_eq!(d.notes, vec!["want: [Int, Int]".to_string(), "got: [Bool, Int]".to_string()]);
    assert_eq!(d.file.as_deref(), Some("unknown"));
    assert_eq!(d.span, Some(Span::new(3, 4)));
}

#[test]
fn diagnostics_of_each_kind() {
    let d = format_error(&TypeError::unspanned(TypeErrorKind::MissingMain));
    assert_eq!(d.message, "missing `main` function");
    assert!(d.notes.is_empty() && d.file.is_none() && d.span.is_none());
    let d = format_error(&TypeError::unspanned(TypeErrorKind::InvalidMain { got: vec![Type::ptr(Type::ptr(Type::Bool))] }));
    assert_eq!(d.notes, vec!["got [Ptr(Ptr(Bool))]".to_string()]);
    let d = format_error(&TypeError::unspanned(TypeErrorKind::UnknownFn { name: "f".to_string() }));
    assert_eq!(d.code.as_deref(), Some("f"));
    let d = format_error(&TypeError::unspanned(TypeErrorKind::BranchesNotEmpty));
    assert_eq!(d.notes.len(), 2);
    let d = format_error(&TypeError::unspanned(TypeErrorKind::BranchesNotEqual));
    assert_eq!(d.message, "branches not equal");
}

#[test]
fn types_compare_structurally() {
    assert!(Type::ptr(Type::Int).equals(&Type::ptr(Type::Int)));
    assert!(!Type::ptr(Type::Int).equals(&Type::ptr(Type::Bool)));
    assert_eq!(Type::ptr(Type::Any).duplicate(), Type::ptr(Type::Any));
    assert_eq!(Literal::Bool(false).literal_type(), Type::Bool);
}
