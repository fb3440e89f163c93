//! Resolving labels by a linear scan of the bytecode from its start.

use vstd::prelude::*;
use crate::types::{BrLabel, FnLabel, Instr, InstrKind};

verus! {

pub open spec fn is_fn_label(k: InstrKind, name: Seq<char>) -> bool {
    match k {
        InstrKind::FnLabel { label } => label.name@ == name,
        _ => false,
    }
}

pub open spec fn is_br_label(k: InstrKind, target: BrLabel) -> bool {
    match k {
        InstrKind::BrLabel { label, .. } => label == target,
        _ => false,
    }
}

pub open spec fn is_branch_to(k: InstrKind, target: BrLabel) -> bool {
    match k {
        InstrKind::Bra { to } => to == target,
        _ => false,
    }
}

/// The first index at or after `i` that labels the function `name`.
pub open spec fn first_fn_label(code: Seq<Instr>, name: Seq<char>, i: int) -> Option<int>
    decreases code.len() - i,
{
    if i < 0 || i >= code.len() {
        None
    } else if is_fn_label(code[i].kind, name) {
        Some(i)
    } else {
        first_fn_label(code, name, i + 1)
    }
}

/// The first index at or after `i` that carries the branch target `target`.
pub open spec fn first_br_label(code: Seq<Instr>, target: BrLabel, i: int) -> Option<int>
    decreases code.len() - i,
{
    if i < 0 || i >= code.len() {
        None
    } else if is_br_label(code[i].kind, target) {
        Some(i)
    } else {
        first_br_label(code, target, i + 1)
    }
}

/// The first index at or after `i` that branches unconditionally to `target`.
pub open spec fn first_branch_to(code: Seq<Instr>, target: BrLabel, i: int) -> Option<int>
    decreases code.len() - i,
{
    if i < 0 || i >= code.len() {
        None
    } else if is_branch_to(code[i].kind, target) {
        Some(i)
    } else {
        first_branch_to(code, target, i + 1)
    }
}

pub proof fn lemma_first_fn_label_bounds(code: Seq<Instr>, name: Seq<char>, i: int)
    ensures
        first_fn_label(code, name, i) matches Some(p) ==> i <= p < code.len()
            && is_fn_label(code[p].kind, name),
        0 <= i && first_fn_label(code, name, i) is None ==> forall|j: int| i <= j < code.len() ==> !is_fn_label(code[j].kind, name),
    decreases code.len() - i,
{
    if 0 <= i < code.len() && !is_fn_label(code[i].kind, name) {
        lemma_first_fn_label_bounds(code, name, i + 1);
    }
}

pub proof fn lemma_first_br_label_bounds(code: Seq<Instr>, target: BrLabel, i: int)
    ensures
        first_br_label(code, target, i) matches Some(p) ==> i <= p < code.len(),
    decreases code.len() - i,
{
    if 0 <= i < code.len() && !is_br_label(code[i].kind, target) {
        lemma_first_br_label_bounds(code, target, i + 1);
    }
}

pub proof fn lemma_first_branch_to_bounds(code: Seq<Instr>, target: BrLabel, i: int)
    ensures
        first_branch_to(code, target, i) matches Some(p) ==> i <= p < code.len(),
    decreases code.len() - i,
{
    if 0 <= i < code.len() && !is_branch_to(code[i].kind, target) {
        lemma_first_branch_to_bounds(code, target, i + 1);
    }
}

/// The index of the entry label of the function `target`.
pub fn find_fn_label(bytecode: &Vec<Instr>, target: &FnLabel) -> (r: Option<usize>)
    ensures
        match r {
            Some(p) => first_fn_label(bytecode@, target.name@, 0) == Some(p as int),
            None => first_fn_label(bytecode@, target.name@, 0) is None,
        },
{
    proof { lemma_first_fn_label_bounds(bytecode@, target.name@, 0); }
    let mut i: usize = 0;
    while i < bytecode.len()
        invariant
            i <= bytecode@.len(),
            first_fn_label(bytecode@, target.name@, 0) == first_fn_label(bytecode@, target.name@, i as int),
        decreases bytecode@.len() - i,
    {
        if let InstrKind::FnLabel { label } = &bytecode[i].kind {
            if label.name == target.name {
                return Some(i);
            }
        }
        i += 1;
    }
    None
}

/// The index of the instruction that carries the branch target `target`.
pub fn find_br_label(bytecode: &Vec<Instr>, target: &BrLabel) -> (r: Option<usize>)
    ensures
        match r {
            Some(p) => first_br_label(bytecode@, *target, 0) == Some(p as int),
            None => first_br_label(bytecode@, *target, 0) is None,
        },
{
    proof { lemma_first_br_label_bounds(bytecode@, *target, 0); }
    let mut i: usize = 0;
    while i < bytecode.len()
        invariant
            i <= bytecode@.len(),
            first_br_label(bytecode@, *target, 0) == first_br_label(bytecode@, *target, i as int),
        decreases bytecode@.len() - i,
    {
        if let InstrKind::BrLabel { label, .. } = &bytecode[i].kind {
            if *label == *target {
                return Some(i);
            }
        }
        i += 1;
    }
    None
}

/// The index of the unconditional branch back to the loop label `target`.
pub fn find_branch_to(bytecode: &Vec<Instr>, target: &BrLabel) -> (r: Option<usize>)
    ensures
        match r {
            Some(p) => first_branch_to(bytecode@, *target, 0) == Some(p as int),
            None => first_branch_to(bytecode@, *target, 0) is None,
        },
{
    proof { lemma_first_branch_to_bounds(bytecode@, *target, 0); }
    let mut i: usize = 0;
    while i < bytecode.len()
        invariant
            i <= bytecode@.len(),
            first_branch_to(bytecode@, *target, 0) == first_branch_to(bytecode@, *target, i as int),
        decreases bytecode@.len() - i,
    {
        if let InstrKind::Bra { to } = &bytecode[i].kind {
            if *to == *target {
                return Some(i);
            }
        }
        i += 1;
    }
    None
}

} // verus!
