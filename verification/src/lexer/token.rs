use crate::lexer::token_kind::{Kw, Literal, Punct, TokenKind};
use crate::span::Span;
use vstd::prelude::*;

verus! {

#[derive(Clone, Debug, PartialEq)]
pub struct Token {
    pub kind: TokenKind,
    pub span: Span,
}

/// The characters are a non-empty run of ASCII digits.
pub open spec fn all_digits(s: Seq<char>) -> bool {
    s.len() > 0 && forall|i: int| 0 <= i < s.len() ==> '0' <= #[trigger] s[i] <= '9'
}

/// Every integer literal among the tokens is a run of digits.
pub open spec fn integer_literals_are_digits(toks: Seq<Token>) -> bool {
    forall|i: int|
        0 <= i < toks.len() ==> match #[trigger] toks[i].kind {
            TokenKind::Literal(Literal::Integer { value, .. }) => all_digits(value@),
            _ => true,
        }
}

/// Tokens with which an expression can begin.
pub open spec fn spec_can_begin_expr(kind: TokenKind) -> bool {
    match kind {
        TokenKind::Literal(_) | TokenKind::Keyword(_) | TokenKind::OpeningDelimiter(_) => true,
        TokenKind::Punctuation(p) => p == Punct::Bang || p == Punct::Minus || p == Punct::Star
            || p == Punct::Ampersand,
        _ => false,
    }
}

/// Keywords with which an item begins.
pub open spec fn spec_begins_item(kind: TokenKind) -> bool {
    match kind {
        TokenKind::Keyword(k) => k == Kw::Fn || k == Kw::Struct || k == Kw::Enum || k == Kw::Impl
            || k == Kw::Trait || k == Kw::Extern || k == Kw::Const || k == Kw::Use || k
            == Kw::Type,
        _ => false,
    }
}

impl Token {
    pub fn new(kind: TokenKind, span: Span) -> (t: Token)
        ensures
            t.kind == kind,
            t.span == span,
    {
        Token { kind, span }
    }

    pub fn can_begin_expr(&self) -> (r: bool)
        ensures
            r == spec_can_begin_expr(self.kind),
    {
        match &self.kind {
            TokenKind::Literal(_) | TokenKind::Keyword(_) | TokenKind::OpeningDelimiter(_) => true,
            TokenKind::Punctuation(p) => match p {
                Punct::Bang | Punct::Minus | Punct::Star | Punct::Ampersand => true,
                _ => false,
            },
            _ => false,
        }
    }

    pub fn begins_item(&self) -> (r: bool)
        ensures
            r == spec_begins_item(self.kind),
    {
        match &self.kind {
            TokenKind::Keyword(k) => match k {
                Kw::Fn | Kw::Struct | Kw::Enum | Kw::Impl | Kw::Trait | Kw::Extern | Kw::Const
                | Kw::Use | Kw::Type => true,
                _ => false,
            },
            _ => false,
        }
    }
}

} // verus!
