//! Properties of the checker, proved over its spec semantics.

use vstd::prelude::*;
use crate::types::{BrLabel, Instr, InstrKind, Literal, Producer, Type};
use crate::error::{Fault, Report, TypeError, bare};
use crate::labels::{first_fn_label, is_fn_label};
use crate::checker::{Until, check, cond_effect, loop_effect, effect, main_name, ptr_to, unknown_file, walk, write_effect, MAX_DEPTH};

verus! {

proof fn lemma_no_label_no_fn(code: Seq<Instr>, name: Seq<char>, i: int)
    requires
        0 <= i,
        forall|j: int| 0 <= j < code.len() ==> !is_fn_label(#[trigger] code[j].kind, name),
    ensures
        first_fn_label(code, name, i) is None,
    decreases code.len() - i,
{
    if i < code.len() {
        lemma_no_label_no_fn(code, name, i + 1);
    }
}

/// Bytecode without a function labelled `main` fails with `MissingMain`.
pub proof fn missing_main_fails(code: Seq<Instr>)
    requires
        forall|j: int| 0 <= j < code.len() ==> !is_fn_label(#[trigger] code[j].kind, main_name()),
    ensures
        check(code) == Err::<(), Report>(bare(Fault::MissingMain)),
{
    lemma_no_label_no_fn(code, main_name(), 0);
}

/// When `main` returns with types left on the stack, the check fails with
/// `InvalidMain` carrying exactly those types, bottom of the stack first.
pub proof fn leftover_types_fail(code: Seq<Instr>, p: int, left: Seq<Type>)
    requires
        first_fn_label(code, main_name(), 0) == Some(p),
        walk(code, Seq::empty(), p, Until::Return, unknown_file(), MAX_DEPTH as nat) == Ok::<Seq<Type>, Report>(left),
        left.len() > 0,
    ensures
        check(code) == Err::<(), Report>(bare(Fault::InvalidMain(left))),
{
}

/// A program made of an empty `main` alone passes.
pub proof fn empty_main_passes(code: Seq<Instr>)
    requires
        code.len() == 2,
        is_fn_label(code[0].kind, main_name()),
        code[1].kind is Return,
    ensures
        check(code) == Ok::<(), Report>(()),
{
    let d = MAX_DEPTH as nat;
    let f = unknown_file();
    assert(first_fn_label(code, main_name(), 0) == Some(0int));
    assert(effect(code, Seq::empty(), 0, d) == Ok::<(Seq<Type>, int), Report>((Seq::empty(), 0)));
    assert(walk(code, Seq::empty(), 1, Until::Return, f, d) == Ok::<Seq<Type>, Report>(Seq::empty()));
    assert(walk(code, Seq::empty(), 0, Until::Return, f, d) == Ok::<Seq<Type>, Report>(Seq::empty()));
}

/// An integer push followed at once by `Drop` leaves the stack as it was.
pub proof fn push_then_drop_is_neutral(
    code: Seq<Instr>,
    s: Seq<Type>,
    ip: int,
    v: i64,
    until: Until,
    file: Seq<char>,
    depth: nat,
)
    requires
        0 <= ip,
        ip + 2 < code.len(),
        code[ip].kind == (InstrKind::Push { value: Literal::Int(v) }),
        code[ip + 1].kind is Drop,
    ensures
        walk(code, s, ip, until, file, depth) == walk(code, s, ip + 2, until, file, depth),
{
    let t = s.push(Type::Int);
    assert(effect(code, s, ip, depth) == Ok::<(Seq<Type>, int), Report>((t, ip)));
    assert(walk(code, s, ip, until, file, depth) == walk(code, t, ip + 1, until, file, depth));
    assert(t.drop_last() =~= s);
    assert(effect(code, t, ip + 1, depth) == Ok::<(Seq<Type>, int), Report>((s, ip + 1)));
}

/// Integer arithmetic on a Boolean above an Integer fails with a mismatch
/// that lists both wanted Integers and the operands found, top first.
pub proof fn arithmetic_on_boolean_fails(code: Seq<Instr>, s: Seq<Type>, ip: int, depth: nat)
    requires
        0 <= ip < code.len(),
        code[ip].kind is Add || code[ip].kind is Sub || code[ip].kind is Mul || code[ip].kind is Dvm,
        s.len() >= 2,
        s[s.len() - 1] == Type::Bool,
        s[s.len() - 2] == Type::Int,
    ensures
        effect(code, s, ip, depth) == Err::<(Seq<Type>, int), Report>(
            bare(Fault::Mismatch(seq![Type::Int, Type::Int], seq![Type::Bool, Type::Int])),
        ),
{
    let got = crate::signature::popped(s, 2);
    assert(got[0] == Some(Type::Bool));
    assert(!crate::signature::signature_fits(seq![Type::Int, Type::Int], got));
    assert(got.drop_last().drop_last() =~= Seq::<Option<Type>>::empty());
    assert(crate::signature::somes(got.drop_last().drop_last()) =~= Seq::<Type>::empty());
    assert(got.drop_last().last() == Some(Type::Bool));
    assert(got.last() == Some(Type::Int));
    assert(crate::signature::somes(got.drop_last()) =~= seq![Type::Bool]);
    assert(crate::signature::somes(got) =~= seq![Type::Bool, Type::Int]);
}


proof fn lemma_pop_condition(s: Seq<Type>)
    requires
        s.len() >= 1,
        s[s.len() - 1] == Type::Bool,
    ensures
        crate::signature::apply_sig(s, seq![Type::Bool], Seq::empty()) == Ok::<Seq<Type>, Report>(s.drop_last()),
{
    let got = crate::signature::popped(s, 1);
    assert(got[0] == Some(Type::Bool));
    assert(crate::signature::signature_fits(seq![Type::Bool], got));
    assert(crate::signature::rest(s, 1) + Seq::<Type>::empty() =~= s.drop_last());
}

/// A one-instruction arm that pushes `v`, walked until the label at its end.
proof fn lemma_push_arm(code: Seq<Instr>, s: Seq<Type>, at: int, v: Literal, until: Until, depth: nat)
    requires
        0 <= at,
        at + 1 < code.len(),
        code[at].kind == (InstrKind::Push { value: v }),
        until.spec_stops(code[at + 1].kind),
    ensures
        walk(code, s, at, until, unknown_file(), depth) == Ok::<Seq<Type>, Report>(s.push(v.spec_type())),
{
    let t = s.push(v.spec_type());
    assert(!until.spec_stops(code[at].kind));
    assert(effect(code, s, at, depth) == Ok::<(Seq<Type>, int), Report>((t, at)));
    assert(walk(code, t, at + 1, until, unknown_file(), depth) == Ok::<Seq<Type>, Report>(t));
}

/// A conditional without an else arm whose arm pushes an Integer fails with
/// `BranchesNotEmpty`.
pub proof fn growing_bare_if_fails(code: Seq<Instr>, s: Seq<Type>, ip: int, to: BrLabel, v: i64, depth: nat)
    requires
        0 <= ip,
        ip + 2 < code.len(),
        depth > 0,
        s.len() >= 1,
        s[s.len() - 1] == Type::Bool,
        code[ip].kind == (InstrKind::Bne { to }),
        code[ip + 1].kind == (InstrKind::Push { value: Literal::Int(v) }),
        code[ip + 2].kind == (InstrKind::BrLabel { label: to, producer: Producer::If }),
        crate::labels::first_br_label(code, to, 0) == Some(ip + 2),
    ensures
        effect(code, s, ip, depth) == Err::<(Seq<Type>, int), Report>(bare(Fault::BranchesNotEmpty)),
{
    lemma_pop_condition(s);
    let s1 = s.drop_last();
    let until = Until::Label { label: to, producer: Producer::If };
    lemma_push_arm(code, s1, ip + 1, Literal::Int(v), until, (depth - 1) as nat);
    assert(s1.push(Type::Int).len() != s1.len());
    assert(cond_effect(code, s1, ip, to, depth) == Err::<(Seq<Type>, int), Report>(bare(Fault::BranchesNotEmpty)));
}

/// The layout of an if/else whose then arm pushes `a` and whose else arm
/// pushes `b`.
pub open spec fn if_else_layout(code: Seq<Instr>, ip: int, to: BrLabel, else_to: BrLabel, a: Literal, b: Literal) -> bool {
    &&& 0 <= ip
    &&& ip + 5 < code.len()
    &&& code[ip].kind == (InstrKind::Bne { to })
    &&& code[ip + 1].kind == (InstrKind::Push { value: a })
    &&& code[ip + 2].kind == (InstrKind::Bra { to: else_to })
    &&& code[ip + 3].kind == (InstrKind::BrLabel { label: to, producer: Producer::If })
    &&& code[ip + 4].kind == (InstrKind::Push { value: b })
    &&& code[ip + 5].kind == (InstrKind::BrLabel { label: else_to, producer: Producer::Else })
    &&& crate::labels::first_br_label(code, to, 0) == Some(ip + 3)
    &&& crate::labels::first_br_label(code, else_to, 0) == Some(ip + 5)
}

proof fn lemma_if_else_arms(code: Seq<Instr>, s1: Seq<Type>, ip: int, to: BrLabel, else_to: BrLabel, a: Literal, b: Literal, d: nat)
    requires
        if_else_layout(code, ip, to, else_to, a, b),
    ensures
        walk(code, s1, ip + 1, Until::Label { label: to, producer: Producer::If }, unknown_file(), d)
            == Ok::<Seq<Type>, Report>(s1.push(a.spec_type())),
        walk(code, s1, ip + 3, Until::Label { label: else_to, producer: Producer::Else }, unknown_file(), d)
            == Ok::<Seq<Type>, Report>(s1.push(b.spec_type())),
{
    let f = unknown_file();
    let then_until = Until::Label { label: to, producer: Producer::If };
    let else_until = Until::Label { label: else_to, producer: Producer::Else };
    let t = s1.push(a.spec_type());
    assert(effect(code, s1, ip + 1, d) == Ok::<(Seq<Type>, int), Report>((t, ip + 1)));
    assert(effect(code, t, ip + 2, d) == Ok::<(Seq<Type>, int), Report>((t, ip + 2)));
    assert(walk(code, t, ip + 3, then_until, f, d) == Ok::<Seq<Type>, Report>(t));
    assert(walk(code, t, ip + 2, then_until, f, d) == Ok::<Seq<Type>, Report>(t));
    let u = s1.push(b.spec_type());
    assert(effect(code, s1, ip + 3, d) == Ok::<(Seq<Type>, int), Report>((s1, ip + 3)));
    assert(effect(code, s1, ip + 4, d) == Ok::<(Seq<Type>, int), Report>((u, ip + 4)));
    assert(walk(code, u, ip + 5, else_until, f, d) == Ok::<Seq<Type>, Report>(u));
    assert(walk(code, s1, ip + 4, else_until, f, d) == Ok::<Seq<Type>, Report>(u));
}

/// An if/else whose arms push an Integer and a Boolean fails with
/// `BranchesNotEqual`.
pub proof fn unequal_arms_fail(code: Seq<Instr>, s: Seq<Type>, ip: int, to: BrLabel, else_to: BrLabel, v: i64, w: bool, depth: nat)
    requires
        if_else_layout(code, ip, to, else_to, Literal::Int(v), Literal::Bool(w)),
        depth > 0,
        s.len() >= 1,
        s[s.len() - 1] == Type::Bool,
    ensures
        effect(code, s, ip, depth) == Err::<(Seq<Type>, int), Report>(bare(Fault::BranchesNotEqual)),
{
    lemma_pop_condition(s);
    let s1 = s.drop_last();
    lemma_if_else_arms(code, s1, ip, to, else_to, Literal::Int(v), Literal::Bool(w), (depth - 1) as nat);
    assert(s1.push(Type::Int)[s1.len() as int] != s1.push(Type::Bool)[s1.len() as int]);
    assert(cond_effect(code, s1, ip, to, depth) == Err::<(Seq<Type>, int), Report>(bare(Fault::BranchesNotEqual)));
}

/// An if/else whose arms both push an Integer passes, leaving one Integer on
/// the stack it found, and the walk resumes after the else arm's label.
pub proof fn equal_arms_merge(code: Seq<Instr>, s: Seq<Type>, ip: int, to: BrLabel, else_to: BrLabel, v: i64, w: i64, depth: nat)
    requires
        if_else_layout(code, ip, to, else_to, Literal::Int(v), Literal::Int(w)),
        depth > 0,
        s.len() >= 1,
        s[s.len() - 1] == Type::Bool,
    ensures
        effect(code, s, ip, depth) == Ok::<(Seq<Type>, int), Report>((s.drop_last().push(Type::Int), ip + 5)),
{
    lemma_pop_condition(s);
    let s1 = s.drop_last();
    lemma_if_else_arms(code, s1, ip, to, else_to, Literal::Int(v), Literal::Int(w), (depth - 1) as nat);
    assert(cond_effect(code, s1, ip, to, depth) == Ok::<(Seq<Type>, int), Report>((s1.push(Type::Int), ip + 5)));
}

/// A loop whose body pushes a value and drops it passes, leaving the stack
/// as it was; the walk resumes after the branch back to the label.
pub proof fn neutral_loop_passes(code: Seq<Instr>, s: Seq<Type>, ip: int, label: BrLabel, v: Literal, depth: nat)
    requires
        0 <= ip,
        ip + 3 < code.len(),
        depth > 0,
        code[ip].kind == (InstrKind::BrLabel { label, producer: Producer::Loop }),
        code[ip + 1].kind == (InstrKind::Push { value: v }),
        code[ip + 2].kind is Drop,
        code[ip + 3].kind == (InstrKind::Bra { to: label }),
        crate::labels::first_branch_to(code, label, 0) == Some(ip + 3),
    ensures
        effect(code, s, ip, depth) == Ok::<(Seq<Type>, int), Report>((s, ip + 3)),
{
    let d = (depth - 1) as nat;
    let f = unknown_file();
    let until = Until::Branch { to: label };
    let t = s.push(v.spec_type());
    assert(t.drop_last() =~= s);
    assert(effect(code, s, ip + 1, d) == Ok::<(Seq<Type>, int), Report>((t, ip + 1)));
    assert(effect(code, t, ip + 2, d) == Ok::<(Seq<Type>, int), Report>((s, ip + 2)));
    assert(walk(code, s, ip + 3, until, f, d) == Ok::<Seq<Type>, Report>(s));
    assert(walk(code, t, ip + 2, until, f, d) == Ok::<Seq<Type>, Report>(s));
    assert(walk(code, s, ip + 1, until, f, d) == Ok::<Seq<Type>, Report>(s));
    assert(loop_effect(code, s, ip, label, depth) == Ok::<(Seq<Type>, int), Report>((s, ip + 3)));
}

/// A loop whose body only pushes a value fails with `BranchesNotEmpty`.
pub proof fn growing_loop_fails(code: Seq<Instr>, s: Seq<Type>, ip: int, label: BrLabel, v: Literal, depth: nat)
    requires
        0 <= ip,
        ip + 2 < code.len(),
        depth > 0,
        code[ip].kind == (InstrKind::BrLabel { label, producer: Producer::Loop }),
        code[ip + 1].kind == (InstrKind::Push { value: v }),
        code[ip + 2].kind == (InstrKind::Bra { to: label }),
    ensures
        effect(code, s, ip, depth) == Err::<(Seq<Type>, int), Report>(bare(Fault::BranchesNotEmpty)),
{
    let until = Until::Branch { to: label };
    lemma_push_arm(code, s, ip + 1, v, until, (depth - 1) as nat);
    assert(s.push(v.spec_type()).len() != s.len());
    assert(loop_effect(code, s, ip, label, depth) == Err::<(Seq<Type>, int), Report>(bare(Fault::BranchesNotEmpty)));
}

/// A call of a name that no function label carries fails with `UnknownFn`
/// carrying that name.
pub proof fn unknown_call_fails(code: Seq<Instr>, s: Seq<Type>, ip: int, depth: nat)
    requires
        0 <= ip < code.len(),
        code[ip].kind is Call,
        forall|j: int| 0 <= j < code.len() ==> !is_fn_label(#[trigger] code[j].kind, code[ip].kind->Call_to.name@),
    ensures
        effect(code, s, ip, depth) == Err::<(Seq<Type>, int), Report>(
            bare(Fault::UnknownFn(code[ip].kind->Call_to.name@)),
        ),
{
    lemma_no_label_no_fn(code, code[ip].kind->Call_to.name@, 0);
}

/// A write passes exactly when the pointer on top points to the type of the
/// value below it.
pub proof fn write_needs_exact_type(s: Seq<Type>)
    ensures
        write_effect(s) is Ok <==> (s.len() >= 2 && s[s.len() - 1] == ptr_to(s[s.len() - 2])),
{
}

/// Writing a Boolean through a pointer to an Integer fails with a mismatch.
pub proof fn boolean_through_integer_pointer_fails(s: Seq<Type>)
    requires
        s.len() >= 2,
        s[s.len() - 1] == ptr_to(Type::Int),
        s[s.len() - 2] == Type::Bool,
    ensures
        write_effect(s) == Err::<Seq<Type>, Report>(
            bare(Fault::Mismatch(seq![ptr_to(Type::Bool), Type::Any], seq![ptr_to(Type::Int), Type::Bool])),
        ),
{
}

/// Checking depends on the bytecode alone: two results that both meet
/// `typecheck`'s contract for the same bytecode agree, in success and, on
/// failure, in kind and location.
pub proof fn checking_is_deterministic(code: Seq<Instr>, r1: Result<(), TypeError>, r2: Result<(), TypeError>)
    requires
        crate::checker::reports(code, r1),
        crate::checker::reports(code, r2),
    ensures
        r1 is Ok <==> r2 is Ok,
        r1 is Err ==> r1->Err_0@ == r2->Err_0@,
{
}

} // verus!
