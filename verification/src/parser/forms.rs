use crate::lexer::token_kind::{Delimiter, Kw, Literal, Punct, TokenKind};
use crate::lexer::token::spec_begins_item;
use crate::parser::ast::{Expr, Item, LiteralExpr, Pattern, Stmt, Ty};
use crate::parser::error::ParserError;
use crate::parser::ops::{opt_view, spec_int_literal};
use vstd::prelude::*;

verus! {

/// What a literal token becomes: an integer by its digits and suffix (an
/// error where it does not fit or the suffix is unknown), a float as
/// written (an error for a suffix other than `f64`), a string as it is.
pub open spec fn literal_parsed(lit: Literal, r: Result<LiteralExpr, ParserError>) -> bool {
    match lit {
        Literal::Integer { value, suffix } => {
            &&& (r is Ok <==> spec_int_literal(value@, opt_view(suffix)) is Some)
            &&& (r matches Ok(l) ==> Some(l) == spec_int_literal(value@, opt_view(suffix)))
        },
        Literal::Float { value, suffix } => {
            &&& (r is Ok <==> (opt_view(suffix) is None || opt_view(suffix) == Some(seq!['f', '6', '4'])))
            &&& (r matches Ok(l) ==> l == LiteralExpr::Float(value))
        },
        Literal::Str(s) => r matches Ok(LiteralExpr::Str(t)) && t@ == s@,
    }
}

/// The form of the expression that an atom beginning with `first` has;
/// `false` where no atom begins with `first`.
pub open spec fn atom_form(first: TokenKind, e: Expr) -> bool {
    match first {
        TokenKind::Keyword(Kw::True) => e == Expr::Literal(LiteralExpr::Bool(true)),
        TokenKind::Keyword(Kw::False) => e == Expr::Literal(LiteralExpr::Bool(false)),
        TokenKind::Keyword(Kw::Unit) => e == Expr::Literal(LiteralExpr::Unit),
        TokenKind::Literal(l) => e matches Expr::Literal(x) && literal_parsed(l, Ok(x)),
        TokenKind::Ident(_) => e is Path || e is Struct,
        TokenKind::OpeningDelimiter(Delimiter::Bracket) => e is Array,
        TokenKind::OpeningDelimiter(Delimiter::Paren) => e is Paren || e is Tuple,
        TokenKind::OpeningDelimiter(Delimiter::Brace) => e is Block,
        TokenKind::Keyword(Kw::If) => e is If,
        TokenKind::Keyword(Kw::While) => e is While,
        TokenKind::Keyword(Kw::Loop) => e is Loop,
        TokenKind::Keyword(Kw::For) => e is For,
        TokenKind::Keyword(Kw::Match) => e is Match,
        TokenKind::Keyword(Kw::Break) => e is Break,
        TokenKind::Keyword(Kw::Continue) => e is Continue,
        TokenKind::Keyword(Kw::Let) => e is Let,
        TokenKind::Keyword(Kw::Return) => e is Return,
        _ => false,
    }
}

/// Tokens with which an atom begins.
pub open spec fn begins_atom(first: TokenKind) -> bool {
    match first {
        TokenKind::Keyword(k) => k == Kw::True || k == Kw::False || k == Kw::Unit || k == Kw::If || k == Kw::While
            || k == Kw::Loop || k == Kw::For || k == Kw::Match || k == Kw::Break || k == Kw::Continue || k
            == Kw::Let || k == Kw::Return,
        TokenKind::Literal(_) | TokenKind::Ident(_) | TokenKind::OpeningDelimiter(_) => true,
        _ => false,
    }
}

/// The form of the type that begins with `first`: `fn` a function
/// pointer, `[` an array, `*` a pointer, `(` a tuple or the type inside,
/// anything else a path.
pub open spec fn type_form(first: TokenKind, t: Ty) -> bool {
    match first {
        TokenKind::Keyword(Kw::Fn) => t is Fn,
        TokenKind::OpeningDelimiter(Delimiter::Bracket) => t is Array,
        TokenKind::Punctuation(Punct::Star) => t is Ptr,
        TokenKind::OpeningDelimiter(Delimiter::Paren) => true,
        _ => t is Path,
    }
}

/// The keyword with which each kind of item begins.
pub open spec fn item_form(first: TokenKind, i: Item) -> bool {
    match first {
        TokenKind::Keyword(Kw::Fn) => i is Fn,
        TokenKind::Keyword(Kw::Struct) => i is Struct,
        TokenKind::Keyword(Kw::Enum) => i is Enum,
        TokenKind::Keyword(Kw::Trait) => i is Trait,
        TokenKind::Keyword(Kw::Mod) => i is Mod,
        TokenKind::Keyword(Kw::Impl) => i is Impl,
        TokenKind::Keyword(Kw::Extern) => i is ExternFn,
        TokenKind::Keyword(Kw::Const) => i is Const,
        TokenKind::Keyword(Kw::Use) => i is Use,
        TokenKind::Keyword(Kw::Type) => i is TyAlias,
        _ => false,
    }
}

/// Keywords with which an item begins.
pub open spec fn begins_item_kw(first: TokenKind) -> bool {
    match first {
        TokenKind::Keyword(k) => k == Kw::Fn || k == Kw::Struct || k == Kw::Enum || k == Kw::Trait || k == Kw::Mod
            || k == Kw::Impl || k == Kw::Extern || k == Kw::Const || k == Kw::Use || k == Kw::Type,
        _ => false,
    }
}

/// The form of the pattern that begins with `first` (an or-pattern aside):
/// `_` the wildcard, a name a path (with fields or elements after it), `(`
/// a tuple or a pattern in parentheses, a literal an expression; `false`
/// where no pattern begins with `first`.
pub open spec fn pattern_form(first: TokenKind, p: Pattern) -> bool {
    match first {
        TokenKind::Punctuation(Punct::Underscore) => p is Wildcard,
        TokenKind::Ident(_) => p is Path || p is Struct || p is TupleStruct,
        TokenKind::OpeningDelimiter(Delimiter::Paren) => p is Paren || p is Tuple,
        TokenKind::Literal(_) => p is Expr,
        _ => false,
    }
}

/// Tokens with which a pattern begins.
pub open spec fn begins_pattern(first: TokenKind) -> bool {
    match first {
        TokenKind::Punctuation(Punct::Underscore) | TokenKind::Ident(_) | TokenKind::Literal(_) => true,
        TokenKind::OpeningDelimiter(Delimiter::Paren) => true,
        _ => false,
    }
}

/// The form of the statement that begins with `first`: `let` a `let`
/// statement, an item keyword an item, anything else an expression, with
/// or without a `;`.
pub open spec fn stmt_form(first: TokenKind, st: Stmt) -> bool {
    if first == TokenKind::Keyword(Kw::Let) {
        st is Let
    } else if spec_begins_item(first) {
        st is Item
    } else {
        st is Semi || st is Expr
    }
}

} // verus!
