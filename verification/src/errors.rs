//! The error taxonomy of the translation pipeline.
//!
//! Every failure is a parse-time failure: lowering and rendering are total.
//! A parse error aborts the whole file's translation; no partial syntax tree
//! is ever returned.

use vstd::prelude::*;

verus! {

/// A structured parse-time error.
///
/// * `Syntax`: the text does not match the grammar.
/// * `EmptySource`: the text holds no contract declaration at all.
/// * `MissingName`: a contract, function or state variable lacks the
///   identifier the grammar requires.
/// * `InvalidAssignmentTarget`: the left-hand side of an assignment is
///   neither an identifier nor an indexed access.
/// * `MissingSubexpression`: a malformed mapping type or an empty
///   expression where one is required.
#[derive(Clone, Copy, Debug, PartialEq, Eq, Structural)]
pub enum TranspileError {
    Syntax,
    EmptySource,
    MissingName,
    InvalidAssignmentTarget,
    MissingSubexpression,
}

} // verus!
