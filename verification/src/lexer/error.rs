use crate::span::Span;
use vstd::prelude::*;

verus! {

/// What the lexer reports about the source text; the tokens are produced anyway.
#[derive(Clone, Copy, Debug, PartialEq)]
pub enum LexerError {
    /// A `/*` comment that is never closed; the span is the `/`.
    UnterminatedComment { span: Span },
    /// A character that no token starts with.
    UnexpectedCharacter { span: Span, character: char },
    /// A backslash followed by a character that is no escape.
    InvalidEscapeCharacter { span: Span, character: char },
    /// A string literal without its closing quote; the span is the opening quote.
    UnterminatedString { span: Span },
}

} // verus!
