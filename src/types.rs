//! The type domain, the instruction set and the source locations.

use vstd::prelude::*;

verus! {

/// A static type on the abstract stack.
///
/// `Any` is a wildcard: it appears on the expected side of a signature and is
/// never produced by an instruction.
#[derive(Debug, PartialEq, Eq)]
pub enum Type {
    Int,
    Bool,
    Ptr { inner: Box<Type> },
    Any,
}

impl Type {
    /// Structural equality: pointers are equal when their targets are.
    pub fn equals(&self, other: &Type) -> (r: bool)
        ensures
            r == (*self == *other),
        decreases self,
    {
        match (self, other) {
            (Type::Int, Type::Int) => true,
            (Type::Bool, Type::Bool) => true,
            (Type::Any, Type::Any) => true,
            (Type::Ptr { inner: a }, Type::Ptr { inner: b }) => a.equals(b),
            _ => false,
        }
    }

    /// A fresh copy of this type.
    pub fn duplicate(&self) -> (r: Type)
        ensures
            r == *self,
        decreases self,
    {
        match self {
            Type::Int => Type::Int,
            Type::Bool => Type::Bool,
            Type::Any => Type::Any,
            Type::Ptr { inner } => Type::Ptr { inner: Box::new(inner.duplicate()) },
        }
    }

    /// A pointer to `inner`.
    pub fn ptr(inner: Type) -> (r: Type)
        ensures
            r == (Type::Ptr { inner: Box::new(inner) }),
    {
        Type::Ptr { inner: Box::new(inner) }
    }
}

/// Element-wise equality of two stacks.
pub fn stacks_equal(a: &Vec<Type>, b: &Vec<Type>) -> (r: bool)
    ensures
        r == (a@ == b@),
{
    if a.len() != b.len() {
        return false;
    }
    let mut i: usize = 0;
    while i < a.len()
        invariant
            a@.len() == b@.len(),
            i <= a@.len(),
            forall|j: int| 0 <= j < i ==> a@[j] == b@[j],
        decreases a@.len() - i,
    {
        if !a[i].equals(&b[i]) {
            return false;
        }
        i += 1;
    }
    assert(a@ =~= b@);
    true
}

/// A copy of a whole stack.
pub fn copy_stack(s: &Vec<Type>) -> (r: Vec<Type>)
    ensures
        r@ == s@,
{
    let mut r: Vec<Type> = Vec::new();
    let mut i: usize = 0;
    while i < s.len()
        invariant
            i <= s@.len(),
            r@ == s@.subrange(0, i as int),
        decreases s@.len() - i,
    {
        r.push(s[i].duplicate());
        i += 1;
        assert(r@ =~= s@.subrange(0, i as int));
    }
    assert(s@.subrange(0, s@.len() as int) =~= s@);
    r
}


/// A position in the source text.
#[derive(Clone, Copy, Debug, PartialEq, Eq, Structural)]
pub struct Span {
    pub start: usize,
    pub end: usize,
}

impl Span {
    pub fn new(start: usize, end: usize) -> (r: Span)
        ensures
            r == (Span { start, end }),
    {
        Span { start, end }
    }
}

/// A literal value pushed by `Push`.
#[derive(Clone, Copy, Debug, PartialEq, Eq, Structural)]
pub enum Literal {
    Int(i64),
    Bool(bool),
}

impl Literal {
    pub open spec fn spec_type(self) -> Type {
        match self {
            Literal::Int(_) => Type::Int,
            Literal::Bool(_) => Type::Bool,
        }
    }

    /// The static type of the literal.
    pub fn literal_type(&self) -> (r: Type)
        ensures
            r == self.spec_type(),
    {
        match self {
            Literal::Int(_) => Type::Int,
            Literal::Bool(_) => Type::Bool,
        }
    }
}

/// The name of a function entry point.
#[derive(Debug)]
pub struct FnLabel {
    pub name: String,
}

impl FnLabel {
    pub fn new(name: String) -> (r: FnLabel)
        ensures
            r.name == name,
    {
        FnLabel { name }
    }
}

/// The identity of a branch target.
#[derive(Clone, Copy, Debug, PartialEq, Eq, Structural)]
pub struct BrLabel {
    pub id: u64,
}

/// Which construct produced a branch-target label.
#[derive(Clone, Copy, Debug, PartialEq, Eq, Structural)]
pub enum Producer {
    If,
    Else,
    Loop,
}

/// An architecture-specific instruction, described by its stack signature:
/// the types it takes (top of the stack first) and the types it leaves
/// (pushed in order).
#[derive(Debug)]
pub struct Intrinsic {
    pub name: String,
    pub takes: Vec<Type>,
    pub gives: Vec<Type>,
}

impl Intrinsic {
    /// The stack signature of the intrinsic.
    pub fn signature(&self) -> (r: (Vec<Type>, Vec<Type>))
        ensures
            r.0@ == self.takes@,
            r.1@ == self.gives@,
    {
        (copy_stack(&self.takes), copy_stack(&self.gives))
    }
}

/// The kind of a bytecode instruction.
#[derive(Debug)]
#[allow(inconsistent_fields)]
pub enum InstrKind {
    Push { value: Literal },
    Call { to: FnLabel },
    Return,
    Drop,
    Copy,
    Over,
    Swap,
    Rot3,
    Rot4,
    Read,
    Write,
    Add,
    Sub,
    Mul,
    Dvm,
    Not,
    And,
    Or,
    Xor,
    Eq,
    Gt,
    Gte,
    Lt,
    Lte,
    /// Branch to the label when the top of the stack is false.
    Bne { to: BrLabel },
    /// Branch to the label unconditionally.
    Bra { to: BrLabel },
    FileStart { name: String },
    FnLabel { label: FnLabel },
    BrLabel { label: BrLabel, producer: Producer },
    Intrinsic(Intrinsic),
}

/// One instruction with the span of the source it came from.
#[derive(Debug)]
pub struct Instr {
    pub kind: InstrKind,
    pub span: Span,
}

impl Instr {
    pub fn new(kind: InstrKind, span: Span) -> (r: Instr)
        ensures
            r.kind == kind,
            r.span == span,
    {
        Instr { kind, span }
    }
}

} // verus!
