//! Turning a check error into a diagnostic: a message, notes, and the place.

use vstd::prelude::*;
use vstd::string::*;
use crate::types::{Span, Type};
use crate::error::{Fault, Report, TypeError, TypeErrorKind};

verus! {

/// A report for a reader: a one-line message, explanatory notes, an optional
/// code snippet and the place it concerns.
#[derive(Debug)]
pub struct Diagnostic {
    pub message: String,
    pub notes: Vec<String>,
    pub code: Option<String>,
    pub file: Option<String>,
    pub span: Option<Span>,
}

/// The mathematical content of a `Diagnostic`.
pub struct Summary {
    pub message: Seq<char>,
    pub notes: Seq<Seq<char>>,
    pub code: Option<Seq<char>>,
    pub place: Option<(Seq<char>, Span)>,
}

impl View for Diagnostic {
    type V = Summary;

    open spec fn view(&self) -> Summary {
        Summary {
            message: self.message@,
            notes: self.notes@.map_values(|n: String| n@),
            code: match self.code {
                Some(c) => Some(c@),
                None => None,
            },
            place: match (self.file, self.span) {
                (Some(f), Some(s)) => Some((f@, s)),
                _ => None,
            },
        }
    }
}

/// The text of a type: `Int`, `Bool`, `Any`, `Ptr(..)`.
pub open spec fn type_text(t: Type) -> Seq<char>
    decreases t,
{
    match t {
        Type::Int => "Int"@,
        Type::Bool => "Bool"@,
        Type::Any => "Any"@,
        Type::Ptr { inner } => "Ptr("@ + type_text(*inner) + ")"@,
    }
}

/// The texts of the types, separated by commas.
pub open spec fn joined_text(ts: Seq<Type>) -> Seq<char>
    decreases ts.len(),
{
    if ts.len() == 0 {
        Seq::empty()
    } else if ts.len() == 1 {
        type_text(ts[0])
    } else {
        joined_text(ts.drop_last()) + ", "@ + type_text(ts.last())
    }
}

/// The text of a list of types: `[Int, Bool]`.
pub open spec fn list_text(ts: Seq<Type>) -> Seq<char> {
    "["@ + joined_text(ts) + "]"@
}

pub open spec fn describe(e: Report) -> Summary {
    let (message, notes, code) = match e.fault {
        Fault::MissingMain => ("missing `main` function"@, Seq::empty(), None),
        Fault::InvalidMain(got) => ("invalid `main` function"@, seq!["got "@ + list_text(got)], None),
        Fault::UnknownFn(name) => ("unknown function"@, Seq::empty(), Some(name)),
        Fault::BranchesNotEmpty => (
            "branch changes stack"@,
            seq!["this branch may not change the types on the stack"@, "use `if/else` instead"@],
            None,
        ),
        Fault::BranchesNotEqual => (
            "branches not equal"@,
            seq!["both branches have to evaluate to the same types"@],
            None,
        ),
        Fault::Mismatch(want, got) => (
            "type mismatch"@,
            seq!["want: "@ + list_text(want), "got: "@ + list_text(got)],
            None,
        ),
        Fault::Malformed => (
            "malformed bytecode"@,
            seq!["a branch or label is not paired as the code generator pairs them"@],
            None,
        ),
        Fault::TooDeep => (
            "nesting too deep"@,
            seq!["calls and nested control flow go deeper than the checker follows"@],
            None,
        ),
    };
    Summary {
        message,
        notes,
        code,
        place: match e.at {
            Some(p) => Some((p.file, p.span)),
            None => None,
        },
    }
}

/// Appends the text of `t` to `out`.
pub fn write_type(t: &Type, out: &mut String)
    ensures
        final(out)@ == old(out)@ + type_text(*t),
    decreases t,
{
    match t {
        Type::Int => out.append("Int"),
        Type::Bool => out.append("Bool"),
        Type::Any => out.append("Any"),
        Type::Ptr { inner } => {
            let ghost before = out@;
            out.append("Ptr(");
            write_type(inner, out);
            out.append(")");
            assert(out@ =~= before + type_text(*t));
        },
    }
}

/// Appends the text of the list `ts` to `out`.
pub fn write_types(ts: &Vec<Type>, out: &mut String)
    ensures
        final(out)@ == old(out)@ + list_text(ts@),
{
    let ghost before = out@;
    out.append("[");
    let mut i: usize = 0;
    while i < ts.len()
        invariant
            i <= ts@.len(),
            out@ == before + "["@ + joined_text(ts@.subrange(0, i as int)),
        decreases ts@.len() - i,
    {
        let ghost prefix = out@;
        if i > 0 {
            out.append(", ");
        }
        write_type(&ts[i], out);
        proof {
            let next = ts@.subrange(0, i + 1);
            assert(next.drop_last() =~= ts@.subrange(0, i as int));
            if i == 0 {
                assert(ts@.subrange(0, 0) =~= Seq::<Type>::empty());
                assert(out@ =~= before + "["@ + joined_text(next));
            } else {
                assert(out@ =~= before + "["@ + joined_text(next));
            }
        }
        i += 1;
    }
    assert(ts@.subrange(0, ts@.len() as int) =~= ts@);
    out.append("]");
    assert(out@ =~= before + list_text(ts@));
}

fn text(s: &str) -> (r: String)
    ensures
        r@ == s@,
{
    String::from_str(s)
}

fn labelled_list(label: &str, ts: &Vec<Type>) -> (r: String)
    ensures
        r@ == label@ + list_text(ts@),
{
    let mut out = String::from_str(label);
    write_types(ts, &mut out);
    out
}

/// The diagnostic that reports `value`.
pub fn format_error(value: &TypeError) -> (r: Diagnostic)
    ensures
        r@ == describe(value@),
{
    let (message, notes, code) = match &value.kind {
        TypeErrorKind::MissingMain => (text("missing `main` function"), Vec::new(), None),
        TypeErrorKind::InvalidMain { got } => (text("invalid `main` function"), vec![labelled_list("got ", got)], None),
        TypeErrorKind::UnknownFn { name } => (text("unknown function"), Vec::new(), Some(name.clone())),
        TypeErrorKind::BranchesNotEmpty => (
            text("branch changes stack"),
            vec![text("this branch may not change the types on the stack"), text("use `if/else` instead")],
            None,
        ),
        TypeErrorKind::BranchesNotEqual => (
            text("branches not equal"),
            vec![text("both branches have to evaluate to the same types")],
            None,
        ),
        TypeErrorKind::Mismatch { want, got } => (
            text("type mismatch"),
            vec![labelled_list("want: ", want), labelled_list("got: ", got)],
            None,
        ),
        TypeErrorKind::Malformed => (
            text("malformed bytecode"),
            vec![text("a branch or label is not paired as the code generator pairs them")],
            None,
        ),
        TypeErrorKind::TooDeep => (
            text("nesting too deep"),
            vec![text("calls and nested control flow go deeper than the checker follows")],
            None,
        ),
    };
    let (file, span) = match &value.file_span {
        Some(fs) => (Some(fs.file.clone()), Some(fs.span)),
        None => (None, None),
    };
    let r = Diagnostic { message, notes, code, file, span };
    assert(r@.notes =~= describe(value@).notes);
    r
}

} // verus!
