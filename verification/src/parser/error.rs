use crate::lexer::token_kind::TokenKind;
use crate::span::Span;
use vstd::prelude::*;

verus! {

#[derive(Clone, Debug, PartialEq)]
pub enum ParserError {
    ExpectedIdentifier { span: Span, found: TokenKind },
    ExpectedItem { span: Span, found: TokenKind },
    ExpectedAssociatedItem { span: Span, found: TokenKind },
    ExpectedExpression { span: Span, found: TokenKind },
    ExpectedPattern { span: Span, found: TokenKind },
    UnexpectedToken { span: Span, found: TokenKind, expected: TokenKind },
    MismatchedDelimiter {
        closing_span: Span,
        opening_span: Span,
        found: TokenKind,
        expected: TokenKind,
    },
    UnclosedDelimiter { span: Span, delimiter: TokenKind },
    LiteralOverflow { span: Span, message: String },
    InvalidLiteralSuffix {
        span: Span,
        suffix: String,
        literal_type: String,
        valid_suffixes: String,
    },
}

} // verus!
