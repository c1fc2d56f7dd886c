use crate::lexer::lexer::tokens_well_formed;
use crate::lexer::token::{integer_literals_are_digits, Token};
use crate::lexer::token_kind::{Literal, TokenKind};
use vstd::prelude::*;

verus! {

/// Whether two tokens are of the same kind: identifiers and literals are
/// compared by their kind alone, all other tokens exactly.
pub open spec fn same_kind(a: TokenKind, b: TokenKind) -> bool {
    match (a, b) {
        (TokenKind::Ident(_), TokenKind::Ident(_)) => true,
        (TokenKind::Literal(Literal::Integer { .. }), TokenKind::Literal(Literal::Integer { .. })) => true,
        (TokenKind::Literal(Literal::Float { .. }), TokenKind::Literal(Literal::Float { .. })) => true,
        (TokenKind::Literal(Literal::Str(_)), TokenKind::Literal(Literal::Str(_))) => true,
        (TokenKind::Punctuation(p), TokenKind::Punctuation(q)) => p == q,
        (TokenKind::OpeningDelimiter(d), TokenKind::OpeningDelimiter(e)) => d == e,
        (TokenKind::ClosingDelimiter(d), TokenKind::ClosingDelimiter(e)) => d == e,
        (TokenKind::Keyword(k), TokenKind::Keyword(l)) => k == l,
        (TokenKind::EOF, TokenKind::EOF) => true,
        _ => false,
    }
}

/// What the parser needs of its token list: it ends with the end-of-file
/// token, and every integer literal is a run of digits (as the lexer makes them).
pub open spec fn tokens_parsable(toks: Seq<Token>) -> bool {
    &&& toks.len() >= 1
    &&& toks.last().kind is EOF
    &&& integer_literals_are_digits(toks)
}

/// What the lexer produces is what the parser accepts.
pub proof fn lemma_lexed_tokens_parsable(toks: Seq<Token>, start: nat, total: nat)
    requires
        tokens_well_formed(toks, start, total),
    ensures
        tokens_parsable(toks),
{
}

/// A copy of a token.
pub fn clone_token(t: &Token) -> (r: Token)
    ensures
        r == *t,
{
    Token { kind: clone_kind(&t.kind), span: t.span }
}

pub fn clone_opt_string(s: &Option<String>) -> (r: Option<String>)
    ensures
        r == *s,
{
    match s {
        Some(s) => Some(s.clone()),
        None => None,
    }
}

pub fn clone_kind(k: &TokenKind) -> (r: TokenKind)
    ensures
        r == *k,
{
    match k {
        TokenKind::Ident(s) => TokenKind::Ident(s.clone()),
        TokenKind::Literal(l) => TokenKind::Literal(
            match l {
                Literal::Integer { value, suffix } => Literal::Integer {
                    value: value.clone(),
                    suffix: clone_opt_string(suffix),
                },
                Literal::Float { value, suffix } => Literal::Float {
                    value: value.clone(),
                    suffix: clone_opt_string(suffix),
                },
                Literal::Str(s) => Literal::Str(s.clone()),
            },
        ),
        TokenKind::Punctuation(p) => TokenKind::Punctuation(*p),
        TokenKind::OpeningDelimiter(d) => TokenKind::OpeningDelimiter(*d),
        TokenKind::ClosingDelimiter(d) => TokenKind::ClosingDelimiter(*d),
        TokenKind::Keyword(w) => TokenKind::Keyword(*w),
        TokenKind::EOF => TokenKind::EOF,
    }
}

pub fn kind_matches(a: &TokenKind, b: &TokenKind) -> (r: bool)
    ensures
        r == same_kind(*a, *b),
{
    match (a, b) {
        (TokenKind::Ident(_), TokenKind::Ident(_)) => true,
        (TokenKind::Literal(Literal::Integer { .. }), TokenKind::Literal(Literal::Integer { .. })) => true,
        (TokenKind::Literal(Literal::Float { .. }), TokenKind::Literal(Literal::Float { .. })) => true,
        (TokenKind::Literal(Literal::Str(_)), TokenKind::Literal(Literal::Str(_))) => true,
        (TokenKind::Punctuation(p), TokenKind::Punctuation(q)) => *p == *q,
        (TokenKind::OpeningDelimiter(d), TokenKind::OpeningDelimiter(e)) => *d == *e,
        (TokenKind::ClosingDelimiter(d), TokenKind::ClosingDelimiter(e)) => *d == *e,
        (TokenKind::Keyword(k), TokenKind::Keyword(l)) => *k == *l,
        (TokenKind::EOF, TokenKind::EOF) => true,
        _ => false,
    }
}

/// Tokens that error recovery skips when an opening delimiter is missing.
pub open spec fn spec_is_junk_for_delim(token: TokenKind) -> bool {
    token is Keyword || token is Punctuation
}

} // verus!
