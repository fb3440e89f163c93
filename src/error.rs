//! The error taxonomy of the checker and its source-location attribution.

use vstd::prelude::*;
use vstd::string::*;
use crate::types::{Span, Type};

verus! {

/// The kind of a failed check.
#[derive(Debug)]
pub enum TypeErrorKind {
    /// No function is labelled `main`.
    MissingMain,
    /// `main` returns with types left on the stack.
    InvalidMain { got: Vec<Type> },
    /// A call names a function that has no label.
    UnknownFn { name: String },
    /// A bare conditional or a loop body changed the stack.
    BranchesNotEmpty,
    /// The two arms of a conditional left different stacks.
    BranchesNotEqual,
    /// The operands of an instruction do not fit its signature
    /// (both lists top of the stack first).
    Mismatch { want: Vec<Type>, got: Vec<Type> },
    /// The labels and branches of the bytecode are not paired as they must be,
    /// or a walk ran past the end of the bytecode.
    Malformed,
    /// Calls and nested control flow went deeper than the checker follows.
    TooDeep,
}

/// The mathematical content of a `TypeErrorKind`.
pub enum Fault {
    MissingMain,
    InvalidMain(Seq<Type>),
    UnknownFn(Seq<char>),
    BranchesNotEmpty,
    BranchesNotEqual,
    Mismatch(Seq<Type>, Seq<Type>),
    Malformed,
    TooDeep,
}

impl View for TypeErrorKind {
    type V = Fault;

    open spec fn view(&self) -> Fault {
        match self {
            TypeErrorKind::MissingMain => Fault::MissingMain,
            TypeErrorKind::InvalidMain { got } => Fault::InvalidMain(got@),
            TypeErrorKind::UnknownFn { name } => Fault::UnknownFn(name@),
            TypeErrorKind::BranchesNotEmpty => Fault::BranchesNotEmpty,
            TypeErrorKind::BranchesNotEqual => Fault::BranchesNotEqual,
            TypeErrorKind::Mismatch { want, got } => Fault::Mismatch(want@, got@),
            TypeErrorKind::Malformed => Fault::Malformed,
            TypeErrorKind::TooDeep => Fault::TooDeep,
        }
    }
}

/// A file name together with a span in that file.
#[derive(Debug)]
pub struct FileSpan {
    pub span: Span,
    pub file: String,
}

impl FileSpan {
    pub fn new(span: Span, file: &str) -> (r: FileSpan)
        ensures
            r.span == span,
            r.file@ == file@,
    {
        FileSpan { span, file: String::from_str(file) }
    }
}

/// The place an error is attributed to.
pub struct Place {
    pub span: Span,
    pub file: Seq<char>,
}

/// The mathematical content of a `TypeError`.
pub struct Report {
    pub fault: Fault,
    pub at: Option<Place>,
}

/// An error with the location it was first attributed to, if any.
#[derive(Debug)]
pub struct TypeError {
    pub kind: TypeErrorKind,
    pub file_span: Option<FileSpan>,
}

impl View for TypeError {
    type V = Report;

    open spec fn view(&self) -> Report {
        Report {
            fault: self.kind@,
            at: match self.file_span {
                Some(fs) => Some(Place { span: fs.span, file: fs.file@ }),
                None => None,
            },
        }
    }
}

/// A report that has not been attributed to a place yet.
pub open spec fn bare(f: Fault) -> Report {
    Report { fault: f, at: None }
}

/// Attribution happens once: a report that already has a place keeps it.
pub open spec fn stamp(e: Report, span: Span, file: Seq<char>) -> Report {
    match e.at {
        Some(_) => e,
        None => Report { fault: e.fault, at: Some(Place { span, file }) },
    }
}

impl TypeError {
    /// An error of the given kind, not yet attributed to a place.
    pub fn unspanned(kind: TypeErrorKind) -> (r: TypeError)
        ensures
            r@ == bare(kind@),
    {
        TypeError { kind, file_span: None }
    }

    /// Attributes the error to `span` in `file` unless it already has a place.
    pub fn located(self, span: Span, file: &String) -> (r: TypeError)
        ensures
            r@ == stamp(self@, span, file@),
    {
        match self.file_span {
            Some(_) => self,
            None => TypeError { kind: self.kind, file_span: Some(FileSpan { span, file: file.clone() }) },
        }
    }
}

} // verus!
