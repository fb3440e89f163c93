//! The abstract stack simulator: its meaning as spec functions, and the
//! executable walker that follows it.

use vstd::prelude::*;
use vstd::string::*;
use crate::types::{BrLabel, FnLabel, Instr, InstrKind, Producer, Type, copy_stack, stacks_equal};
use crate::error::{Fault, Report, TypeError, TypeErrorKind, bare, stamp};
use crate::signature::{apply_sig, apply_signature, popped, present, somes, split_signature};
use crate::labels::{
    find_br_label, find_branch_to, find_fn_label, first_br_label, first_branch_to, first_fn_label,
};

verus! {

/// How deep calls and nested control flow are followed before the check gives
/// up with `TooDeep`.
pub const MAX_DEPTH: usize = 256;

/// Where a walk stops: at a `Return`, at a given branch-target label, or at the
/// unconditional branch back to a loop label.
#[derive(Clone, Copy, Debug, PartialEq, Eq, Structural)]
pub enum Until {
    Return,
    Label { label: BrLabel, producer: Producer },
    Branch { to: BrLabel },
}

impl Until {
    pub open spec fn spec_stops(self, k: InstrKind) -> bool {
        match self {
            Until::Return => k is Return,
            Until::Label { label, producer } => k == (InstrKind::BrLabel { label, producer }),
            Until::Branch { to } => k == (InstrKind::Bra { to }),
        }
    }

    /// Whether the walk stops at an instruction of kind `k`.
    pub fn stops(&self, k: &InstrKind) -> (r: bool)
        ensures
            r == self.spec_stops(*k),
    {
        match (self, k) {
            (Until::Return, InstrKind::Return) => true,
            (Until::Label { label, producer }, InstrKind::BrLabel { label: l, producer: p }) =>
                *label == *l && *producer == *p,
            (Until::Branch { to }, InstrKind::Bra { to: t }) => *to == *t,
            _ => false,
        }
    }
}

/// The file that errors are attributed to before a walk meets a file marker.
pub open spec fn unknown_file() -> Seq<char> {
    seq!['u', 'n', 'k', 'n', 'o', 'w', 'n']
}

pub open spec fn main_name() -> Seq<char> {
    seq!['m', 'a', 'i', 'n']
}

/// `n` wildcards.
pub open spec fn anys(n: nat) -> Seq<Type> {
    Seq::new(n, |_i: int| Type::Any)
}

pub open spec fn ptr_to(t: Type) -> Type {
    Type::Ptr { inner: Box::new(t) }
}

/// The fixed signature of the arithmetic, logic and comparison instructions.
pub open spec fn builtin_sig(k: InstrKind) -> Option<(Seq<Type>, Seq<Type>)> {
    match k {
        InstrKind::Add | InstrKind::Sub | InstrKind::Mul | InstrKind::Dvm =>
            Some((seq![Type::Int, Type::Int], seq![Type::Int])),
        InstrKind::Not => Some((seq![Type::Bool], seq![Type::Bool])),
        InstrKind::And | InstrKind::Or | InstrKind::Xor =>
            Some((seq![Type::Bool, Type::Bool], seq![Type::Bool])),
        InstrKind::Eq | InstrKind::Gt | InstrKind::Gte | InstrKind::Lt | InstrKind::Lte =>
            Some((seq![Type::Int, Type::Int], seq![Type::Bool])),
        _ => None,
    }
}

/// A stack effect that leaves the instruction pointer where it is.
pub open spec fn stay(r: Result<Seq<Type>, Report>, ip: int) -> Result<(Seq<Type>, int), Report> {
    match r {
        Ok(t) => Ok((t, ip)),
        Err(e) => Err(e),
    }
}

/// The error of a pop of `take` operands from `s` against `n` wildcards.
pub open spec fn underflow(s: Seq<Type>, n: nat, take: nat) -> Report {
    bare(Fault::Mismatch(anys(n), somes(popped(s, take))))
}

/// Reading through the pointer on top of the stack leaves the pointed-to type.
pub open spec fn read_effect(s: Seq<Type>) -> Result<Seq<Type>, Report> {
    let n = s.len();
    if n == 0 {
        Err(bare(Fault::Mismatch(seq![ptr_to(Type::Any)], Seq::empty())))
    } else {
        match s[n - 1] {
            Type::Ptr { inner } => Ok(s.drop_last().push(*inner)),
            t => Err(bare(Fault::Mismatch(seq![ptr_to(Type::Any)], seq![t]))),
        }
    }
}

/// Writing a value (below) through a pointer (on top) of exactly its type
/// leaves the value.
pub open spec fn write_effect(s: Seq<Type>) -> Result<Seq<Type>, Report> {
    let n = s.len();
    if n < 2 {
        Err(bare(Fault::Mismatch(seq![ptr_to(Type::Any), Type::Any], somes(popped(s, 2)))))
    } else {
        match s[n - 1] {
            Type::Ptr { inner } => if *inner == s[n - 2] {
                Ok(s.subrange(0, n - 2).push(s[n - 2]))
            } else {
                Err(bare(Fault::Mismatch(seq![ptr_to(s[n - 2]), Type::Any], seq![s[n - 1], s[n - 2]])))
            },
            _ => Err(bare(Fault::Mismatch(seq![ptr_to(Type::Any), Type::Any], seq![s[n - 1], s[n - 2]]))),
        }
    }
}

/// Walks from `ip` until the instruction that `until` names, applying each
/// instruction's effect to `s`. `file` is the last file marker seen by this
/// walk; errors are attributed to the instruction at which they arose.
pub open spec fn walk(code: Seq<Instr>, s: Seq<Type>, ip: int, until: Until, file: Seq<char>, depth: nat)
    -> Result<Seq<Type>, Report>
    decreases depth, code.len() - ip, 2int,
{
    if ip < 0 || ip >= code.len() {
        Err(bare(Fault::Malformed))
    } else if until.spec_stops(code[ip].kind) {
        Ok(s)
    } else {
        let here = match code[ip].kind {
            InstrKind::FileStart { name } => name@,
            _ => file,
        };
        match effect(code, s, ip, depth) {
            Err(e) => Err(stamp(e, code[ip].span, here)),
            Ok((t, next)) => if next < ip || next + 1 >= code.len() {
                Err(stamp(bare(Fault::Malformed), code[ip].span, here))
            } else {
                walk(code, t, next + 1, until, here, depth)
            },
        }
    }
}

/// The effect of the instruction at `ip` on the stack `s`: the new stack and
/// the position the walk resumes after.
pub open spec fn effect(code: Seq<Instr>, s: Seq<Type>, ip: int, depth: nat) -> Result<(Seq<Type>, int), Report>
    decreases depth, code.len() - ip, 1int,
{
    let n = s.len();
    match code[ip].kind {
        InstrKind::Push { value } => Ok((s.push(value.spec_type()), ip)),
        InstrKind::Call { to } => call_effect(code, s, ip, to.name@, depth),
        InstrKind::Drop => if n == 0 { Err(underflow(s, 1, 1)) } else { Ok((s.drop_last(), ip)) },
        InstrKind::Copy => if n == 0 { Err(underflow(s, 1, 1)) } else { Ok((s.push(s[n - 1]), ip)) },
        InstrKind::Over => if n < 2 { Err(underflow(s, 2, 2)) } else { Ok((s.push(s[n - 2]), ip)) },
        InstrKind::Swap => if n < 2 {
            Err(underflow(s, 2, 2))
        } else {
            Ok((s.subrange(0, n - 2).push(s[n - 1]).push(s[n - 2]), ip))
        },
        InstrKind::Rot3 => if n < 4 { Err(underflow(s, 3, 4)) } else { Ok((s.remove(n - 4).push(s[n - 4]), ip)) },
        InstrKind::Rot4 => if n < 5 { Err(underflow(s, 4, 5)) } else { Ok((s.remove(n - 5).push(s[n - 5]), ip)) },
        InstrKind::Read => stay(read_effect(s), ip),
        InstrKind::Write => stay(write_effect(s), ip),
        InstrKind::Intrinsic(i) => stay(apply_sig(s, i.takes@, i.gives@), ip),
        InstrKind::Bne { to } => match apply_sig(s, seq![Type::Bool], Seq::empty()) {
            Err(e) => Err(e),
            Ok(t) => cond_effect(code, t, ip, to, depth),
        },
        InstrKind::BrLabel { label, producer: Producer::Loop } => loop_effect(code, s, ip, label, depth),
        k => match builtin_sig(k) {
            Some((want, gives)) => stay(apply_sig(s, want, gives), ip),
            None => Ok((s, ip)),
        },
    }
}

/// A call: the callee's body runs on the caller's stack, from its label to
/// its `Return`.
pub open spec fn call_effect(code: Seq<Instr>, s: Seq<Type>, ip: int, name: Seq<char>, depth: nat)
    -> Result<(Seq<Type>, int), Report>
    decreases depth, code.len() - ip, 0int,
{
    match first_fn_label(code, name, 0) {
        None => Err(bare(Fault::UnknownFn(name))),
        Some(p) => if depth == 0 {
            Err(bare(Fault::TooDeep))
        } else {
            stay(walk(code, s, p, Until::Return, unknown_file(), (depth - 1) as nat), ip)
        },
    }
}

/// A conditional branch to `to`, its condition already popped. An
/// unconditional branch just before the target makes it an if/else, whose
/// arms must leave equal stacks; otherwise the arm must leave the stack as it
/// found it.
pub open spec fn cond_effect(code: Seq<Instr>, s: Seq<Type>, ip: int, to: BrLabel, depth: nat)
    -> Result<(Seq<Type>, int), Report>
    decreases depth, code.len() - ip, 0int,
{
    match first_br_label(code, to, 0) {
        None => Err(bare(Fault::Malformed)),
        Some(p) => if p == 0 {
            Err(bare(Fault::Malformed))
        } else if depth == 0 {
            Err(bare(Fault::TooDeep))
        } else {
            let d = (depth - 1) as nat;
            let then_until = Until::Label { label: to, producer: Producer::If };
            match code[p - 1].kind {
                InstrKind::Bra { to: else_to } => match walk(code, s, ip + 1, then_until, unknown_file(), d) {
                    Err(e) => Err(e),
                    Ok(t) => match walk(code, s, p, Until::Label { label: else_to, producer: Producer::Else }, unknown_file(), d) {
                        Err(e) => Err(e),
                        Ok(u) => if t != u {
                            Err(bare(Fault::BranchesNotEqual))
                        } else {
                            match first_br_label(code, else_to, 0) {
                                None => Err(bare(Fault::Malformed)),
                                Some(q) => Ok((t, q)),
                            }
                        },
                    },
                },
                _ => match walk(code, s, ip + 1, then_until, unknown_file(), d) {
                    Err(e) => Err(e),
                    Ok(t) => if t != s { Err(bare(Fault::BranchesNotEmpty)) } else { Ok((s, p)) },
                },
            }
        },
    }
}

/// A loop label: the body, up to the branch back to the label, must leave the
/// stack as it found it.
pub open spec fn loop_effect(code: Seq<Instr>, s: Seq<Type>, ip: int, label: BrLabel, depth: nat)
    -> Result<(Seq<Type>, int), Report>
    decreases depth, code.len() - ip, 0int,
{
    if depth == 0 {
        Err(bare(Fault::TooDeep))
    } else {
        match walk(code, s, ip + 1, Until::Branch { to: label }, unknown_file(), (depth - 1) as nat) {
            Err(e) => Err(e),
            Ok(t) => if t != s {
                Err(bare(Fault::BranchesNotEmpty))
            } else {
                match first_branch_to(code, label, 0) {
                    None => Err(bare(Fault::Malformed)),
                    Some(q) => Ok((s, q)),
                }
            },
        }
    }
}

/// The result of checking a whole program: `main`'s body, run on an empty
/// stack, must return with an empty stack.
pub open spec fn check(code: Seq<Instr>) -> Result<(), Report> {
    match first_fn_label(code, main_name(), 0) {
        None => Err(bare(Fault::MissingMain)),
        Some(p) => match walk(code, Seq::empty(), p, Until::Return, unknown_file(), MAX_DEPTH as nat) {
            Err(e) => Err(e),
            Ok(t) => if t.len() == 0 { Ok(()) } else { Err(bare(Fault::InvalidMain(t))) },
        },
    }
}

/// `r` is the result that `check` gives for `code`.
pub open spec fn reports(code: Seq<Instr>, r: Result<(), TypeError>) -> bool {
    match check(code) {
        Ok(()) => r is Ok,
        Err(e) => r matches Err(x) && x@ == e,
    }
}

/// `r` and the final stack and position are those that `e` describes.
pub open spec fn follows(e: Result<(Seq<Type>, int), Report>, r: Result<(), TypeError>, s: Seq<Type>, ip: usize) -> bool {
    match e {
        Ok((t, q)) => r is Ok && s == t && ip == q,
        Err(x) => r matches Err(y) && y@ == x,
    }
}

/// `r` and the final stack are those that `e` describes.
pub open spec fn ends(e: Result<Seq<Type>, Report>, r: Result<(), TypeError>, s: Seq<Type>) -> bool {
    match e {
        Ok(t) => r is Ok && s == t,
        Err(x) => r matches Err(y) && y@ == x,
    }
}


fn unknown_file_name() -> (r: String)
    ensures
        r@ == unknown_file(),
{
    proof { reveal_strlit("unknown"); }
    String::from_str("unknown")
}

/// The error of a pop of `take` operands against `n` wildcards.
fn underflow_error(stack: &mut Vec<Type>, n: usize, take: usize) -> (r: TypeError)
    ensures
        r@ == underflow(old(stack)@, n as nat, take as nat),
{
    let got = split_signature(stack, take);
    let mut want: Vec<Type> = Vec::new();
    let mut i: usize = 0;
    while i < n
        invariant
            i <= n,
            want@ =~= anys(i as nat),
        decreases n - i,
    {
        want.push(Type::Any);
        i += 1;
    }
    TypeError::unspanned(TypeErrorKind::Mismatch { want, got: present(&got) })
}

/// The fixed signature of an arithmetic, logic or comparison instruction.
fn builtin_signature(k: &InstrKind) -> (r: Option<(Vec<Type>, Vec<Type>)>)
    ensures
        match builtin_sig(*k) {
            Some((w, g)) => r matches Some(x) && x.0@ == w && x.1@ == g,
            None => r is None,
        },
{
    match k {
        InstrKind::Add | InstrKind::Sub | InstrKind::Mul | InstrKind::Dvm =>
            Some((vec![Type::Int, Type::Int], vec![Type::Int])),
        InstrKind::Not => Some((vec![Type::Bool], vec![Type::Bool])),
        InstrKind::And | InstrKind::Or | InstrKind::Xor =>
            Some((vec![Type::Bool, Type::Bool], vec![Type::Bool])),
        InstrKind::Eq | InstrKind::Gt | InstrKind::Gte | InstrKind::Lt | InstrKind::Lte =>
            Some((vec![Type::Int, Type::Int], vec![Type::Bool])),
        _ => None,
    }
}


/// Walks the bytecode from `start` on `stack` until the instruction that `end`
/// names.
pub fn eval_fn(bytecode: &Vec<Instr>, stack: &mut Vec<Type>, start: usize, end: Until, depth: usize)
    -> (r: Result<(), TypeError>)
    ensures
        ends(walk(bytecode@, old(stack)@, start as int, end, unknown_file(), depth as nat), r, final(stack)@),
    decreases depth, 2int,
{
    let ghost code = bytecode@;
    let ghost whole = walk(code, stack@, start as int, end, unknown_file(), depth as nat);
    let mut file_name = unknown_file_name();
    let mut ip: usize = start;
    loop
        invariant
            whole == walk(code, stack@, ip as int, end, file_name@, depth as nat),
            whole == walk(bytecode@, old(stack)@, start as int, end, unknown_file(), depth as nat),
            code == bytecode@,
        decreases code.len() - ip,
    {
        if ip >= bytecode.len() {
            return Err(TypeError::unspanned(TypeErrorKind::Malformed));
        }
        let instr = &bytecode[ip];
        if end.stops(&instr.kind) {
            return Ok(());
        }
        if let InstrKind::FileStart { name } = &instr.kind {
            file_name = name.clone();
        }
        let mut next: usize = ip;
        match eval_instr(bytecode, stack, &mut next, &instr.kind, depth) {
            Ok(()) => {},
            Err(err) => return Err(err.located(instr.span, &file_name)),
        }
        if next < ip || next >= bytecode.len() - 1 {
            return Err(TypeError::unspanned(TypeErrorKind::Malformed).located(instr.span, &file_name));
        }
        ip = next + 1;
    }
}

/// Applies the effect of the instruction at `*ip` to `stack`, and moves `*ip`
/// to the position the walk resumes after.
pub fn eval_instr(bytecode: &Vec<Instr>, stack: &mut Vec<Type>, ip: &mut usize, instr_kind: &InstrKind, depth: usize)
    -> (r: Result<(), TypeError>)
    requires
        *old(ip) < bytecode@.len(),
        *instr_kind == bytecode@[*old(ip) as int].kind,
    ensures
        follows(effect(bytecode@, old(stack)@, *old(ip) as int, depth as nat), r, final(stack)@, *final(ip)),
    decreases depth, 1int,
{
    match instr_kind {
        InstrKind::Push { value } => {
            stack.push(value.literal_type());
            Ok(())
        },
        InstrKind::Call { to } => eval_call(bytecode, stack, *ip, to, depth),
        InstrKind::Drop => {
            if stack.len() == 0 {
                return Err(underflow_error(stack, 1, 1));
            }
            stack.pop();
            Ok(())
        },
        InstrKind::Copy => {
            if stack.len() == 0 {
                return Err(underflow_error(stack, 1, 1));
            }
            let t = stack[stack.len() - 1].duplicate();
            stack.push(t);
            Ok(())
        },
        InstrKind::Over => {
            if stack.len() < 2 {
                return Err(underflow_error(stack, 2, 2));
            }
            let t = stack[stack.len() - 2].duplicate();
            stack.push(t);
            Ok(())
        },
        InstrKind::Swap => {
            if stack.len() < 2 {
                return Err(underflow_error(stack, 2, 2));
            }
            let ghost s0 = stack@;
            let upper = stack.pop().unwrap();
            let lower = stack.pop().unwrap();
            stack.push(upper);
            stack.push(lower);
            assert(stack@ =~= s0.subrange(0, s0.len() - 2).push(s0[s0.len() - 1]).push(s0[s0.len() - 2]));
            Ok(())
        },
        InstrKind::Rot3 => {
            if stack.len() < 4 {
                return Err(underflow_error(stack, 3, 4));
            }
            let bottom = stack.remove(stack.len() - 4);
            stack.push(bottom);
            Ok(())
        },
        InstrKind::Rot4 => {
            if stack.len() < 5 {
                return Err(underflow_error(stack, 4, 5));
            }
            let bottom = stack.remove(stack.len() - 5);
            stack.push(bottom);
            Ok(())
        },
        InstrKind::Read => eval_read(stack),
        InstrKind::Write => eval_write(stack),
        InstrKind::Intrinsic(intrinsic) => {
            let (takes, gives) = intrinsic.signature();
            apply_signature(stack, &takes, &gives)
        },
        InstrKind::Bne { to } => {
            let want = vec![Type::Bool];
            let gives: Vec<Type> = Vec::new();
            proof { assert(want@ =~= seq![Type::Bool]); assert(gives@ =~= Seq::<Type>::empty()); }
            apply_signature(stack, &want, &gives)?;
            eval_branch(bytecode, stack, ip, to, depth)
        },
        InstrKind::BrLabel { label, producer: Producer::Loop } => eval_loop(bytecode, stack, ip, label, depth),
        _ => match builtin_signature(instr_kind) {
            Some((want, gives)) => apply_signature(stack, &want, &gives),
            None => Ok(()),
        },
    }
}

fn eval_read(stack: &mut Vec<Type>) -> (r: Result<(), TypeError>)
    ensures
        ends(read_effect(old(stack)@), r, final(stack)@),
{
    let want = vec![Type::ptr(Type::Any)];
    assert(want@ =~= seq![ptr_to(Type::Any)]);
    match stack.pop() {
        Some(Type::Ptr { inner }) => {
            stack.push(*inner);
            Ok(())
        },
        Some(t) => {
            let got = vec![t];
            assert(got@ =~= seq![t]);
            Err(TypeError::unspanned(TypeErrorKind::Mismatch { want, got }))
        },
        None => Err(TypeError::unspanned(TypeErrorKind::Mismatch { want, got: Vec::new() })),
    }
}


fn eval_write(stack: &mut Vec<Type>) -> (r: Result<(), TypeError>)
    ensures
        ends(write_effect(old(stack)@), r, final(stack)@),
{
    if stack.len() < 2 {
        let got = split_signature(stack, 2);
        let want = vec![Type::ptr(Type::Any), Type::Any];
        return Err(TypeError::unspanned(TypeErrorKind::Mismatch { want, got: present(&got) }));
    }
    let ghost s0 = stack@;
    let top = stack.pop().unwrap();
    let value = stack.pop().unwrap();
    let fits = match &top {
        Type::Ptr { inner } => Some(inner.equals(&value)),
        _ => None,
    };
    match fits {
        Some(true) => {
            stack.push(value);
            assert(stack@ =~= s0.subrange(0, s0.len() - 2).push(s0[s0.len() - 2]));
            Ok(())
        },
        Some(false) => {
            let want = vec![Type::ptr(value.duplicate()), Type::Any];
            Err(TypeError::unspanned(TypeErrorKind::Mismatch { want, got: vec![top, value] }))
        },
        None => {
            let want = vec![Type::ptr(Type::Any), Type::Any];
            Err(TypeError::unspanned(TypeErrorKind::Mismatch { want, got: vec![top, value] }))
        },
    }
}

fn eval_call(bytecode: &Vec<Instr>, stack: &mut Vec<Type>, ip: usize, to: &FnLabel, depth: usize)
    -> (r: Result<(), TypeError>)
    requires
        ip < bytecode@.len(),
    ensures
        follows(call_effect(bytecode@, old(stack)@, ip as int, to.name@, depth as nat), r, final(stack)@, ip),
    decreases depth, 0int,
{
    proof { crate::labels::lemma_first_fn_label_bounds(bytecode@, to.name@, 0); }
    let position = match find_fn_label(bytecode, to) {
        Some(p) => p,
        None => return Err(TypeError::unspanned(TypeErrorKind::UnknownFn { name: to.name.clone() })),
    };
    if depth == 0 {
        return Err(TypeError::unspanned(TypeErrorKind::TooDeep));
    }
    assert(first_fn_label(bytecode@, to.name@, 0) == Some(position as int));
    eval_fn(bytecode, stack, position, Until::Return, depth - 1)
}

fn eval_branch(bytecode: &Vec<Instr>, stack: &mut Vec<Type>, ip: &mut usize, to: &BrLabel, depth: usize)
    -> (r: Result<(), TypeError>)
    requires
        *old(ip) < bytecode@.len(),
    ensures
        follows(cond_effect(bytecode@, old(stack)@, *old(ip) as int, *to, depth as nat), r, final(stack)@, *final(ip)),
    decreases depth, 0int,
{
    proof { crate::labels::lemma_first_br_label_bounds(bytecode@, *to, 0); }
    let position = match find_br_label(bytecode, to) {
        Some(p) => p,
        None => return Err(TypeError::unspanned(TypeErrorKind::Malformed)),
    };
    assert(first_br_label(bytecode@, *to, 0) == Some(position as int));
    if position == 0 {
        return Err(TypeError::unspanned(TypeErrorKind::Malformed));
    }
    if depth == 0 {
        return Err(TypeError::unspanned(TypeErrorKind::TooDeep));
    }
    let _n = bytecode.len();
    let then_until = Until::Label { label: *to, producer: Producer::If };
    if let InstrKind::Bra { to: else_to } = &bytecode[position - 1].kind {
        let mut if_stack = copy_stack(stack);
        let mut else_stack = copy_stack(stack);
        eval_fn(bytecode, &mut if_stack, *ip + 1, then_until, depth - 1)?;
        let else_until = Until::Label { label: *else_to, producer: Producer::Else };
        eval_fn(bytecode, &mut else_stack, position, else_until, depth - 1)?;
        if !stacks_equal(&if_stack, &else_stack) {
            return Err(TypeError::unspanned(TypeErrorKind::BranchesNotEqual));
        }
        proof { crate::labels::lemma_first_br_label_bounds(bytecode@, *else_to, 0); }
        let end_position = match find_br_label(bytecode, else_to) {
            Some(q) => q,
            None => return Err(TypeError::unspanned(TypeErrorKind::Malformed)),
        };
        *stack = if_stack;
        *ip = end_position;
        Ok(())
    } else {
        let mut if_stack = copy_stack(stack);
        eval_fn(bytecode, &mut if_stack, *ip + 1, then_until, depth - 1)?;
        if !stacks_equal(stack, &if_stack) {
            return Err(TypeError::unspanned(TypeErrorKind::BranchesNotEmpty));
        }
        *ip = position;
        Ok(())
    }
}

fn eval_loop(bytecode: &Vec<Instr>, stack: &mut Vec<Type>, ip: &mut usize, label: &BrLabel, depth: usize)
    -> (r: Result<(), TypeError>)
    requires
        *old(ip) < bytecode@.len(),
    ensures
        follows(loop_effect(bytecode@, old(stack)@, *old(ip) as int, *label, depth as nat), r, final(stack)@, *final(ip)),
    decreases depth, 0int,
{
    if depth == 0 {
        return Err(TypeError::unspanned(TypeErrorKind::TooDeep));
    }
    let _n = bytecode.len();
    let mut loop_stack = copy_stack(stack);
    eval_fn(bytecode, &mut loop_stack, *ip + 1, Until::Branch { to: *label }, depth - 1)?;
    if !stacks_equal(stack, &loop_stack) {
        return Err(TypeError::unspanned(TypeErrorKind::BranchesNotEmpty));
    }
    proof { crate::labels::lemma_first_branch_to_bounds(bytecode@, *label, 0); }
    let position = match find_branch_to(bytecode, label) {
        Some(q) => q,
        None => return Err(TypeError::unspanned(TypeErrorKind::Malformed)),
    };
    *ip = position;
    Ok(())
}

/// Checks a whole program: the function labelled `main` must exist and, run
/// on an empty stack, return with an empty stack.
pub fn typecheck(bytecode: Vec<Instr>) -> (r: Result<(), TypeError>)
    ensures
        reports(bytecode@, r),
{
    proof { reveal_strlit("main"); }
    let main_label = FnLabel::new(String::from_str("main"));
    assert(main_label.name@ =~= main_name());
    proof { crate::labels::lemma_first_fn_label_bounds(bytecode@, main_name(), 0); }
    let main = match find_fn_label(&bytecode, &main_label) {
        Some(p) => p,
        None => return Err(TypeError::unspanned(TypeErrorKind::MissingMain)),
    };
    let mut stack: Vec<Type> = Vec::new();
    eval_fn(&bytecode, &mut stack, main, Until::Return, MAX_DEPTH)?;
    if stack.len() != 0 {
        return Err(TypeError::unspanned(TypeErrorKind::InvalidMain { got: stack }));
    }
    Ok(())
}

} // verus!
