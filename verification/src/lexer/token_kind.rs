use vstd::prelude::*;

verus! {

#[derive(Clone, Copy, Debug, PartialEq, Eq, Structural)]
pub enum Delimiter {
    Paren,
    Bracket,
    Brace,
}

#[derive(Clone, Copy, Debug, PartialEq, Eq, Structural)]
pub enum Punct {
    Plus,
    Minus,
    Star,
    Slash,
    Percent,
    Ampersand,
    And,
    PlusEq,
    MinusEq,
    StarEq,
    SlashEq,
    PercentEq,
    Bang,
    Eq,
    EqEq,
    NotEq,
    Less,
    LessEq,
    Greater,
    GreaterEq,
    Arrow,
    FatArrow,
    Dot,
    Semicolon,
    Comma,
    Question,
    Colon,
    ColonColon,
    Underscore,
    Pipe,
    Or,
}

#[derive(Clone, Copy, Debug, PartialEq, Eq, Structural)]
pub enum Kw {
    Let,
    Fn,
    Return,
    If,
    Else,
    While,
    Loop,
    For,
    In,
    Break,
    Continue,
    Struct,
    Enum,
    Trait,
    Mod,
    Match,
    Impl,
    Pub,
    Mut,
    Type,
    As,
    True,
    False,
    Use,
    Where,
    Extern,
    Const,
    Unit,
}

#[derive(Clone, Debug, PartialEq)]
pub enum Literal {
    Integer { value: String, suffix: Option<String> },
    Float { value: String, suffix: Option<String> },
    Str(String),
}

#[derive(Clone, Debug, PartialEq)]
pub enum TokenKind {
    Ident(String),
    Literal(Literal),
    Punctuation(Punct),
    OpeningDelimiter(Delimiter),
    ClosingDelimiter(Delimiter),
    Keyword(Kw),
    EOF,
}

/// Assignment operators, which bind to the right.
pub open spec fn spec_is_right_associative(kind: TokenKind) -> bool {
    match kind {
        TokenKind::Punctuation(p) => p == Punct::Eq || p == Punct::PlusEq || p == Punct::MinusEq
            || p == Punct::StarEq || p == Punct::SlashEq || p == Punct::PercentEq,
        _ => false,
    }
}

/// Operators that stand between two operands.
pub open spec fn spec_is_infix_op(kind: TokenKind) -> bool {
    match kind {
        TokenKind::Punctuation(p) => p == Punct::Plus || p == Punct::Minus || p == Punct::Star
            || p == Punct::Slash || p == Punct::Percent || p == Punct::And || p == Punct::Or
            || p == Punct::Eq || p == Punct::PlusEq || p == Punct::MinusEq || p == Punct::StarEq
            || p == Punct::SlashEq || p == Punct::PercentEq || p == Punct::EqEq || p
            == Punct::NotEq || p == Punct::Less || p == Punct::LessEq || p == Punct::Greater || p
            == Punct::GreaterEq,
        _ => false,
    }
}

impl TokenKind {
    pub fn is_right_associative(&self) -> (r: bool)
        ensures
            r == spec_is_right_associative(*self),
    {
        match self {
            TokenKind::Punctuation(p) => match p {
                Punct::Eq | Punct::PlusEq | Punct::MinusEq | Punct::StarEq | Punct::SlashEq
                | Punct::PercentEq => true,
                _ => false,
            },
            _ => false,
        }
    }

    pub fn is_infix_op(&self) -> (r: bool)
        ensures
            r == spec_is_infix_op(*self),
    {
        match self {
            TokenKind::Punctuation(p) => match p {
                Punct::Plus | Punct::Minus | Punct::Star | Punct::Slash | Punct::Percent
                | Punct::And | Punct::Or | Punct::Eq | Punct::PlusEq | Punct::MinusEq
                | Punct::StarEq | Punct::SlashEq | Punct::PercentEq | Punct::EqEq | Punct::NotEq
                | Punct::Less | Punct::LessEq | Punct::Greater | Punct::GreaterEq => true,
                _ => false,
            },
            _ => false,
        }
    }

    pub fn is_eof(&self) -> (r: bool)
        ensures
            r == (*self is EOF),
    {
        match self {
            TokenKind::EOF => true,
            _ => false,
        }
    }
}

} // verus!
