//! Popping a fixed number of operands and checking them against a signature.

use vstd::prelude::*;
use crate::types::{Type, copy_stack};
use crate::error::{Fault, Report, TypeError, TypeErrorKind, bare};

verus! {

/// How many operands a pop of `n` takes from `s`.
pub open spec fn taken(s: Seq<Type>, n: nat) -> nat {
    if s.len() < n { s.len() } else { n }
}

/// The `n` operand slots of a pop from `s`, top of the stack first; the slots
/// below the bottom of the stack are empty.
pub open spec fn popped(s: Seq<Type>, n: nat) -> Seq<Option<Type>> {
    Seq::new(n, |i: int| if i < s.len() { Some(s[s.len() - 1 - i]) } else { None })
}

/// What is left of `s` after a pop of `n`.
pub open spec fn rest(s: Seq<Type>, n: nat) -> Seq<Type> {
    s.subrange(0, s.len() - taken(s, n))
}

/// The filled slots, in order.
pub open spec fn somes(g: Seq<Option<Type>>) -> Seq<Type>
    decreases g.len(),
{
    if g.len() == 0 {
        Seq::empty()
    } else {
        let front = somes(g.drop_last());
        match g.last() {
            Some(t) => front.push(t),
            None => front,
        }
    }
}

/// Slot `i` fits what `want[i]` asks: any present value for `Any`, else
/// exactly that type.
pub open spec fn slot_fits(w: Type, g: Option<Type>) -> bool {
    match w {
        Type::Any => g is Some,
        _ => g == Some(w),
    }
}

pub open spec fn signature_fits(want: Seq<Type>, got: Seq<Option<Type>>) -> bool {
    forall|i: int| 0 <= i < want.len() ==> slot_fits(want[i], got[i])
}

/// The effect of a signature on a stack: pop `want`, check it, push `gives`.
pub open spec fn apply_sig(s: Seq<Type>, want: Seq<Type>, gives: Seq<Type>) -> Result<Seq<Type>, Report> {
    let got = popped(s, want.len());
    if signature_fits(want, got) {
        Ok(rest(s, want.len()) + gives)
    } else {
        Err(bare(Fault::Mismatch(want, somes(got))))
    }
}

/// Pops `n` operands, top of the stack first; fewer when the stack is shallower,
/// the missing slots left empty.
pub fn split_signature(stack: &mut Vec<Type>, n: usize) -> (r: Vec<Option<Type>>)
    ensures
        r@ == popped(old(stack)@, n as nat),
        final(stack)@ == rest(old(stack)@, n as nat),
{
    let ghost s0 = stack@;
    let mut r: Vec<Option<Type>> = Vec::new();
    let mut i: usize = 0;
    while i < n
        invariant
            i <= n,
            r@ =~= popped(s0, n as nat).subrange(0, i as int),
            stack@ =~= rest(s0, i as nat),
        decreases n - i,
    {
        match stack.pop() {
            Some(t) => r.push(Some(t)),
            None => r.push(None),
        }
        i += 1;
    }
    r
}

/// Checks popped operands against the wanted types.
pub fn verify_signature(want: &Vec<Type>, got: &Vec<Option<Type>>) -> (r: Result<(), TypeError>)
    requires
        want@.len() == got@.len(),
    ensures
        r is Ok <==> signature_fits(want@, got@),
        r matches Err(e) ==> e@ == bare(Fault::Mismatch(want@, somes(got@))),
{
    let mut i: usize = 0;
    while i < want.len()
        invariant
            want@.len() == got@.len(),
            i <= want@.len(),
            forall|j: int| 0 <= j < i ==> slot_fits(want@[j], got@[j]),
        decreases want@.len() - i,
    {
        let fits = match (&want[i], &got[i]) {
            (Type::Any, g) => g.is_some(),
            (w, Some(g)) => w.equals(g),
            (_, None) => false,
        };
        if !fits {
            let kind = TypeErrorKind::Mismatch { want: copy_stack(want), got: present(got) };
            return Err(TypeError::unspanned(kind));
        }
        i += 1;
    }
    Ok(())
}

/// The filled slots of `got`, in order.
pub(crate) fn present(got: &Vec<Option<Type>>) -> (r: Vec<Type>)
    ensures
        r@ == somes(got@),
{
    let mut r: Vec<Type> = Vec::new();
    let mut i: usize = 0;
    while i < got.len()
        invariant
            i <= got@.len(),
            r@ == somes(got@.subrange(0, i as int)),
        decreases got@.len() - i,
    {
        assert(got@.subrange(0, i + 1).drop_last() =~= got@.subrange(0, i as int));
        if let Some(t) = &got[i] {
            r.push(t.duplicate());
        }
        i += 1;
    }
    assert(got@.subrange(0, got@.len() as int) =~= got@);
    r
}

/// Pops `want`, checks it and pushes `gives`.
pub fn apply_signature(stack: &mut Vec<Type>, want: &Vec<Type>, gives: &Vec<Type>) -> (r: Result<(), TypeError>)
    ensures
        match apply_sig(old(stack)@, want@, gives@) {
            Ok(s) => r is Ok && final(stack)@ == s,
            Err(e) => r matches Err(x) && x@ == e,
        },
{
    let got = split_signature(stack, want.len());
    verify_signature(want, &got)?;
    let mut i: usize = 0;
    let ghost base = stack@;
    while i < gives.len()
        invariant
            i <= gives@.len(),
            stack@ =~= base + gives@.subrange(0, i as int),
        decreases gives@.len() - i,
    {
        stack.push(gives[i].duplicate());
        i += 1;
    }
    assert(gives@.subrange(0, gives@.len() as int) =~= gives@);
    Ok(())
}

} // verus!
