//! Static type checking of stack bytecode: an abstract interpreter that runs
//! each instruction on a stack of types instead of values.
//!
//! - `types`: the type domain, the instructions and their spans.
//! - `error`: the error taxonomy and where an error is attributed.
//! - `signature`: popping operands and checking them against a signature.
//! - `labels`: resolving function and branch labels.
//! - `checker`: the meaning of a walk as spec functions, and the walker.
//! - `laws`: properties of the checker, proved over that meaning.
//! - `diagnostic`: turning an error into a message with notes.

pub mod types;
pub mod error;
pub mod signature;
pub mod labels;
pub mod checker;
pub mod laws;
pub mod diagnostic;
