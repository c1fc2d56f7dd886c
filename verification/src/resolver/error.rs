use crate::span::Span;
use vstd::prelude::*;

verus! {

/// What name resolution reports.
#[derive(Clone, Debug, PartialEq)]
pub enum ResolverError {
    NameNotFound { span: Span, name: String },
    DuplicateDefinition { span: Span, name: String },
    VariableNotBoundInPattern { span: Span, name: String },
    /// `path` is the path's identifiers joined by `::`.
    UnresolvedPath { span: Span, path: String },
    SuperBeyondRoot { span: Span },
    SelfOutsideImpl { span: Span },
    SelfAsBinding { span: Span },
}

} // verus!
