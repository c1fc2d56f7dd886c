use crate::lexer::token::Token;
use crate::lexer::token_kind::{Delimiter, Kw, Literal, Punct, TokenKind};
use crate::public::span::Span;
use crate::parser::cursor::clone_opt_string;
use vstd::prelude::*;

verus! {

/// The kind of a token, as the compiler hands it out.
#[derive(Clone, Debug, PartialEq)]
pub enum PublicTokenKind {
    Ident(String),
    Literal(PublicLiteral),
    Punctuation(PunctuationKind),
    OpeningDelimiter(DelimiterKind),
    ClosingDelimiter(DelimiterKind),
    Keyword(KeywordKind),
    EOF,
}

#[derive(Clone, Debug, PartialEq)]
pub enum PublicLiteral {
    Integer { value: String, suffix: Option<String> },
    Float { value: String, suffix: Option<String> },
    Str(String),
}

#[derive(Clone, Copy, Debug, PartialEq, Eq, Structural)]
pub enum PunctuationKind {
    Plus,
    Minus,
    Star,
    Slash,
    Percent,
    Ampersand,
    And,
    PlusEq,
    MinusEq,
    StarEq,
    SlashEq,
    PercentEq,
    Bang,
    Eq,
    EqEq,
    NotEq,
    Less,
    LessEq,
    Greater,
    GreaterEq,
    Arrow,
    FatArrow,
    Dot,
    Semicolon,
    Comma,
    Question,
    Colon,
    ColonColon,
    Underscore,
    Pipe,
    Or,
}

#[derive(Clone, Copy, Debug, PartialEq, Eq, Structural)]
pub enum DelimiterKind {
    Paren,
    Bracket,
    Brace,
}

#[derive(Clone, Copy, Debug, PartialEq, Eq, Structural)]
pub enum KeywordKind {
    Let,
    Fn,
    Return,
    If,
    Else,
    While,
    Loop,
    For,
    In,
    Break,
    Continue,
    Struct,
    Enum,
    Trait,
    Mod,
    Match,
    Impl,
    Pub,
    Mut,
    Type,
    As,
    True,
    False,
    Use,
    Where,
    Extern,
    Const,
    Unit,
}

#[derive(Clone, Debug, PartialEq)]
pub struct PublicToken {
    pub kind: PublicTokenKind,
    pub span: Span,
}

pub open spec fn spec_punctuation_kind(x: Punct) -> PunctuationKind {
    match x {
        Punct::Plus => PunctuationKind::Plus,
        Punct::Minus => PunctuationKind::Minus,
        Punct::Star => PunctuationKind::Star,
        Punct::Slash => PunctuationKind::Slash,
        Punct::Percent => PunctuationKind::Percent,
        Punct::Ampersand => PunctuationKind::Ampersand,
        Punct::And => PunctuationKind::And,
        Punct::PlusEq => PunctuationKind::PlusEq,
        Punct::MinusEq => PunctuationKind::MinusEq,
        Punct::StarEq => PunctuationKind::StarEq,
        Punct::SlashEq => PunctuationKind::SlashEq,
        Punct::PercentEq => PunctuationKind::PercentEq,
        Punct::Bang => PunctuationKind::Bang,
        Punct::Eq => PunctuationKind::Eq,
        Punct::EqEq => PunctuationKind::EqEq,
        Punct::NotEq => PunctuationKind::NotEq,
        Punct::Less => PunctuationKind::Less,
        Punct::LessEq => PunctuationKind::LessEq,
        Punct::Greater => PunctuationKind::Greater,
        Punct::GreaterEq => PunctuationKind::GreaterEq,
        Punct::Arrow => PunctuationKind::Arrow,
        Punct::FatArrow => PunctuationKind::FatArrow,
        Punct::Dot => PunctuationKind::Dot,
        Punct::Semicolon => PunctuationKind::Semicolon,
        Punct::Comma => PunctuationKind::Comma,
        Punct::Question => PunctuationKind::Question,
        Punct::Colon => PunctuationKind::Colon,
        Punct::ColonColon => PunctuationKind::ColonColon,
        Punct::Underscore => PunctuationKind::Underscore,
        Punct::Pipe => PunctuationKind::Pipe,
        Punct::Or => PunctuationKind::Or,
    }
}

pub fn punctuation_kind(x: &Punct) -> (r: PunctuationKind)
    ensures
        r == spec_punctuation_kind(*x),
{
    match x {
        Punct::Plus => PunctuationKind::Plus,
        Punct::Minus => PunctuationKind::Minus,
        Punct::Star => PunctuationKind::Star,
        Punct::Slash => PunctuationKind::Slash,
        Punct::Percent => PunctuationKind::Percent,
        Punct::Ampersand => PunctuationKind::Ampersand,
        Punct::And => PunctuationKind::And,
        Punct::PlusEq => PunctuationKind::PlusEq,
        Punct::MinusEq => PunctuationKind::MinusEq,
        Punct::StarEq => PunctuationKind::StarEq,
        Punct::SlashEq => PunctuationKind::SlashEq,
        Punct::PercentEq => PunctuationKind::PercentEq,
        Punct::Bang => PunctuationKind::Bang,
        Punct::Eq => PunctuationKind::Eq,
        Punct::EqEq => PunctuationKind::EqEq,
        Punct::NotEq => PunctuationKind::NotEq,
        Punct::Less => PunctuationKind::Less,
        Punct::LessEq => PunctuationKind::LessEq,
        Punct::Greater => PunctuationKind::Greater,
        Punct::GreaterEq => PunctuationKind::GreaterEq,
        Punct::Arrow => PunctuationKind::Arrow,
        Punct::FatArrow => PunctuationKind::FatArrow,
        Punct::Dot => PunctuationKind::Dot,
        Punct::Semicolon => PunctuationKind::Semicolon,
        Punct::Comma => PunctuationKind::Comma,
        Punct::Question => PunctuationKind::Question,
        Punct::Colon => PunctuationKind::Colon,
        Punct::ColonColon => PunctuationKind::ColonColon,
        Punct::Underscore => PunctuationKind::Underscore,
        Punct::Pipe => PunctuationKind::Pipe,
        Punct::Or => PunctuationKind::Or,
    }
}

pub open spec fn spec_delimiter_kind(x: Delimiter) -> DelimiterKind {
    match x {
        Delimiter::Paren => DelimiterKind::Paren,
        Delimiter::Bracket => DelimiterKind::Bracket,
        Delimiter::Brace => DelimiterKind::Brace,
    }
}

pub fn delimiter_kind(x: &Delimiter) -> (r: DelimiterKind)
    ensures
        r == spec_delimiter_kind(*x),
{
    match x {
        Delimiter::Paren => DelimiterKind::Paren,
        Delimiter::Bracket => DelimiterKind::Bracket,
        Delimiter::Brace => DelimiterKind::Brace,
    }
}

pub open spec fn spec_keyword_kind(x: Kw) -> KeywordKind {
    match x {
        Kw::Let => KeywordKind::Let,
        Kw::Fn => KeywordKind::Fn,
        Kw::Return => KeywordKind::Return,
        Kw::If => KeywordKind::If,
        Kw::Else => KeywordKind::Else,
        Kw::While => KeywordKind::While,
        Kw::Loop => KeywordKind::Loop,
        Kw::For => KeywordKind::For,
        Kw::In => KeywordKind::In,
        Kw::Break => KeywordKind::Break,
        Kw::Continue => KeywordKind::Continue,
        Kw::Struct => KeywordKind::Struct,
        Kw::Enum => KeywordKind::Enum,
        Kw::Trait => KeywordKind::Trait,
        Kw::Mod => KeywordKind::Mod,
        Kw::Match => KeywordKind::Match,
        Kw::Impl => KeywordKind::Impl,
        Kw::Pub => KeywordKind::Pub,
        Kw::Mut => KeywordKind::Mut,
        Kw::Type => KeywordKind::Type,
        Kw::As => KeywordKind::As,
        Kw::True => KeywordKind::True,
        Kw::False => KeywordKind::False,
        Kw::Use => KeywordKind::Use,
        Kw::Where => KeywordKind::Where,
        Kw::Extern => KeywordKind::Extern,
        Kw::Const => KeywordKind::Const,
        Kw::Unit => KeywordKind::Unit,
    }
}

pub fn keyword_kind(x: &Kw) -> (r: KeywordKind)
    ensures
        r == spec_keyword_kind(*x),
{
    match x {
        Kw::Let => KeywordKind::Let,
        Kw::Fn => KeywordKind::Fn,
        Kw::Return => KeywordKind::Return,
        Kw::If => KeywordKind::If,
        Kw::Else => KeywordKind::Else,
        Kw::While => KeywordKind::While,
        Kw::Loop => KeywordKind::Loop,
        Kw::For => KeywordKind::For,
        Kw::In => KeywordKind::In,
        Kw::Break => KeywordKind::Break,
        Kw::Continue => KeywordKind::Continue,
        Kw::Struct => KeywordKind::Struct,
        Kw::Enum => KeywordKind::Enum,
        Kw::Trait => KeywordKind::Trait,
        Kw::Mod => KeywordKind::Mod,
        Kw::Match => KeywordKind::Match,
        Kw::Impl => KeywordKind::Impl,
        Kw::Pub => KeywordKind::Pub,
        Kw::Mut => KeywordKind::Mut,
        Kw::Type => KeywordKind::Type,
        Kw::As => KeywordKind::As,
        Kw::True => KeywordKind::True,
        Kw::False => KeywordKind::False,
        Kw::Use => KeywordKind::Use,
        Kw::Where => KeywordKind::Where,
        Kw::Extern => KeywordKind::Extern,
        Kw::Const => KeywordKind::Const,
        Kw::Unit => KeywordKind::Unit,
    }
}

/// The literal as handed out: the same text, the same suffix.
pub open spec fn literal_maps_to(lit: Literal, p: PublicLiteral) -> bool {
    match (lit, p) {
        (Literal::Integer { value, suffix }, PublicLiteral::Integer { value: v, suffix: s }) => v == value && s == suffix,
        (Literal::Float { value, suffix }, PublicLiteral::Float { value: v, suffix: s }) => v == value && s == suffix,
        (Literal::Str(x), PublicLiteral::Str(y)) => x == y,
        _ => false,
    }
}

pub fn map_literal(lit: &Literal) -> (r: PublicLiteral)
    ensures
        literal_maps_to(*lit, r),
{
    match lit {
        Literal::Integer { value, suffix } => PublicLiteral::Integer { value: value.clone(), suffix: clone_opt_string(suffix) },
        Literal::Float { value, suffix } => PublicLiteral::Float { value: value.clone(), suffix: clone_opt_string(suffix) },
        Literal::Str(s) => PublicLiteral::Str(s.clone()),
    }
}

/// The token kind as handed out: each kind to the kind of the same name.
pub open spec fn token_kind_maps_to(k: TokenKind, p: PublicTokenKind) -> bool {
    match (k, p) {
        (TokenKind::Ident(s), PublicTokenKind::Ident(t)) => s == t,
        (TokenKind::Literal(l), PublicTokenKind::Literal(q)) => literal_maps_to(l, q),
        (TokenKind::Punctuation(x), PublicTokenKind::Punctuation(y)) => y == spec_punctuation_kind(x),
        (TokenKind::OpeningDelimiter(x), PublicTokenKind::OpeningDelimiter(y)) => y == spec_delimiter_kind(x),
        (TokenKind::ClosingDelimiter(x), PublicTokenKind::ClosingDelimiter(y)) => y == spec_delimiter_kind(x),
        (TokenKind::Keyword(x), PublicTokenKind::Keyword(y)) => y == spec_keyword_kind(x),
        (TokenKind::EOF, PublicTokenKind::EOF) => true,
        _ => false,
    }
}

impl PublicTokenKind {
    pub fn from_token_kind(kind: &TokenKind) -> (r: PublicTokenKind)
        ensures
            token_kind_maps_to(*kind, r),
    {
        match kind {
            TokenKind::Ident(s) => PublicTokenKind::Ident(s.clone()),
            TokenKind::Literal(lit) => PublicTokenKind::Literal(map_literal(lit)),
            TokenKind::Punctuation(p) => PublicTokenKind::Punctuation(punctuation_kind(p)),
            TokenKind::OpeningDelimiter(d) => PublicTokenKind::OpeningDelimiter(delimiter_kind(d)),
            TokenKind::ClosingDelimiter(d) => PublicTokenKind::ClosingDelimiter(delimiter_kind(d)),
            TokenKind::Keyword(k) => PublicTokenKind::Keyword(keyword_kind(k)),
            TokenKind::EOF => PublicTokenKind::EOF,
        }
    }
}

impl PublicToken {
    pub fn from_token(t: &Token) -> (r: PublicToken)
        ensures
            token_kind_maps_to(t.kind, r.kind),
            r.span == Span::spec_from_span(t.span),
    {
        PublicToken { kind: PublicTokenKind::from_token_kind(&t.kind), span: Span::from_span(t.span) }
    }
}

} // verus!
