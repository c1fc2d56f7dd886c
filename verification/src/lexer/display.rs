use crate::lexer::error::LexerError;
use crate::lexer::grammar::{byte_at, lemma_lex_from_step, lex_from, lex_step, run_end, span_of, CharClass, KindModel};
use crate::lexer::keywords::spec_keyword;
use crate::span::Span;
use crate::lexer::token::Token;
use crate::lexer::token_kind::{Delimiter, Kw, Literal, Punct, TokenKind};
use crate::strings::{decimal, push_decimal, push_str, push_string};
use vstd::prelude::*;

verus! {

/// How a keyword is spelled.
pub open spec fn spec_kw_text(k: Kw) -> Seq<char> {
    match k {
        Kw::Let => seq!['l', 'e', 't'],
        Kw::Fn => seq!['f', 'n'],
        Kw::Return => seq!['r', 'e', 't', 'u', 'r', 'n'],
        Kw::If => seq!['i', 'f'],
        Kw::Else => seq!['e', 'l', 's', 'e'],
        Kw::While => seq!['w', 'h', 'i', 'l', 'e'],
        Kw::Loop => seq!['l', 'o', 'o', 'p'],
        Kw::For => seq!['f', 'o', 'r'],
        Kw::In => seq!['i', 'n'],
        Kw::Break => seq!['b', 'r', 'e', 'a', 'k'],
        Kw::Continue => seq!['c', 'o', 'n', 't', 'i', 'n', 'u', 'e'],
        Kw::Struct => seq!['s', 't', 'r', 'u', 'c', 't'],
        Kw::Enum => seq!['e', 'n', 'u', 'm'],
        Kw::Trait => seq!['t', 'r', 'a', 'i', 't'],
        Kw::Mod => seq!['m', 'o', 'd'],
        Kw::Match => seq!['m', 'a', 't', 'c', 'h'],
        Kw::Impl => seq!['i', 'm', 'p', 'l'],
        Kw::Pub => seq!['p', 'u', 'b'],
        Kw::Mut => seq!['m', 'u', 't'],
        Kw::Type => seq!['t', 'y', 'p', 'e'],
        Kw::As => seq!['a', 's'],
        Kw::True => seq!['t', 'r', 'u', 'e'],
        Kw::False => seq!['f', 'a', 'l', 's', 'e'],
        Kw::Use => seq!['u', 's', 'e'],
        Kw::Where => seq!['w', 'h', 'e', 'r', 'e'],
        Kw::Extern => seq!['e', 'x', 't', 'e', 'r', 'n'],
        Kw::Const => seq!['c', 'o', 'n', 's', 't'],
        Kw::Unit => seq!['u', 'n', 'i', 't'],
    }
}

/// How a punctuation mark is spelled.
pub open spec fn spec_punct_text(p: Punct) -> Seq<char> {
    match p {
        Punct::Plus => seq!['+'],
        Punct::Minus => seq!['-'],
        Punct::Star => seq!['*'],
        Punct::Slash => seq!['/'],
        Punct::Percent => seq!['%'],
        Punct::Ampersand => seq!['&'],
        Punct::And => seq!['&', '&'],
        Punct::PlusEq => seq!['+', '='],
        Punct::MinusEq => seq!['-', '='],
        Punct::StarEq => seq!['*', '='],
        Punct::SlashEq => seq!['/', '='],
        Punct::PercentEq => seq!['%', '='],
        Punct::Bang => seq!['!'],
        Punct::Eq => seq!['='],
        Punct::EqEq => seq!['=', '='],
        Punct::NotEq => seq!['!', '='],
        Punct::Less => seq!['<'],
        Punct::LessEq => seq!['<', '='],
        Punct::Greater => seq!['>'],
        Punct::GreaterEq => seq!['>', '='],
        Punct::Arrow => seq!['-', '>'],
        Punct::FatArrow => seq!['=', '>'],
        Punct::Dot => seq!['.'],
        Punct::Semicolon => seq![';'],
        Punct::Comma => seq![','],
        Punct::Question => seq!['?'],
        Punct::Colon => seq![':'],
        Punct::ColonColon => seq![':', ':'],
        Punct::Underscore => seq!['_'],
        Punct::Pipe => seq!['|'],
        Punct::Or => seq!['|', '|'],
    }
}

/// How an opening delimiter is spelled.
pub open spec fn spec_opening_text(d: Delimiter) -> Seq<char> {
    match d {
        Delimiter::Paren => seq!['('],
        Delimiter::Bracket => seq!['['],
        Delimiter::Brace => seq!['{'],
    }
}

/// How a closing delimiter is spelled.
pub open spec fn spec_closing_text(d: Delimiter) -> Seq<char> {
    match d {
        Delimiter::Paren => seq![')'],
        Delimiter::Bracket => seq![']'],
        Delimiter::Brace => seq!['}'],
    }
}

/// How a literal is written: a number with its suffix, a string between
/// double quotes.
pub open spec fn spec_literal_text(l: Literal) -> Seq<char> {
    match l {
        Literal::Integer { value, suffix } => match suffix {
            Some(s) => value@ + s@,
            None => value@,
        },
        Literal::Float { value, suffix } => match suffix {
            Some(s) => value@ + s@,
            None => value@,
        },
        Literal::Str(s) => seq!['"'] + s@ + seq!['"'],
    }
}

/// How a token is written in a message.
pub open spec fn spec_token_text(t: TokenKind) -> Seq<char> {
    match t {
        TokenKind::Ident(s) => s@,
        TokenKind::Literal(l) => spec_literal_text(l),
        TokenKind::Punctuation(p) => spec_punct_text(p),
        TokenKind::OpeningDelimiter(d) => spec_opening_text(d),
        TokenKind::ClosingDelimiter(d) => spec_closing_text(d),
        TokenKind::Keyword(k) => spec_kw_text(k),
        TokenKind::EOF => seq!['E', 'O', 'F'],
    }
}

/// Each keyword is spelled as the lexer reads it back.
pub proof fn law_keyword_text_round_trip(k: Kw)
    ensures
        spec_keyword(spec_kw_text(k)) == Some(k),
{
    match k {
        Kw::Let => { assert(spec_kw_text(k) =~= seq!['l', 'e', 't']); },
        Kw::Fn => { assert(spec_kw_text(k) =~= seq!['f', 'n']); },
        Kw::Return => { assert(spec_kw_text(k) =~= seq!['r', 'e', 't', 'u', 'r', 'n']); },
        Kw::If => { assert(spec_kw_text(k) =~= seq!['i', 'f']); },
        Kw::Else => { assert(spec_kw_text(k) =~= seq!['e', 'l', 's', 'e']); },
        Kw::While => { assert(spec_kw_text(k) =~= seq!['w', 'h', 'i', 'l', 'e']); },
        Kw::Loop => { assert(spec_kw_text(k) =~= seq!['l', 'o', 'o', 'p']); },
        Kw::For => { assert(spec_kw_text(k) =~= seq!['f', 'o', 'r']); },
        Kw::In => { assert(spec_kw_text(k) =~= seq!['i', 'n']); },
        Kw::Break => { assert(spec_kw_text(k) =~= seq!['b', 'r', 'e', 'a', 'k']); },
        Kw::Continue => { assert(spec_kw_text(k) =~= seq!['c', 'o', 'n', 't', 'i', 'n', 'u', 'e']); },
        Kw::Struct => { assert(spec_kw_text(k) =~= seq!['s', 't', 'r', 'u', 'c', 't']); },
        Kw::Enum => { assert(spec_kw_text(k) =~= seq!['e', 'n', 'u', 'm']); },
        Kw::Trait => { assert(spec_kw_text(k) =~= seq!['t', 'r', 'a', 'i', 't']); },
        Kw::Mod => { assert(spec_kw_text(k) =~= seq!['m', 'o', 'd']); },
        Kw::Match => { assert(spec_kw_text(k) =~= seq!['m', 'a', 't', 'c', 'h']); },
        Kw::Impl => { assert(spec_kw_text(k) =~= seq!['i', 'm', 'p', 'l']); },
        Kw::Pub => { assert(spec_kw_text(k) =~= seq!['p', 'u', 'b']); },
        Kw::Mut => { assert(spec_kw_text(k) =~= seq!['m', 'u', 't']); },
        Kw::Type => { assert(spec_kw_text(k) =~= seq!['t', 'y', 'p', 'e']); },
        Kw::As => { assert(spec_kw_text(k) =~= seq!['a', 's']); },
        Kw::True => { assert(spec_kw_text(k) =~= seq!['t', 'r', 'u', 'e']); },
        Kw::False => { assert(spec_kw_text(k) =~= seq!['f', 'a', 'l', 's', 'e']); },
        Kw::Use => { assert(spec_kw_text(k) =~= seq!['u', 's', 'e']); },
        Kw::Where => { assert(spec_kw_text(k) =~= seq!['w', 'h', 'e', 'r', 'e']); },
        Kw::Extern => { assert(spec_kw_text(k) =~= seq!['e', 'x', 't', 'e', 'r', 'n']); },
        Kw::Const => { assert(spec_kw_text(k) =~= seq!['c', 'o', 'n', 's', 't']); },
        Kw::Unit => { assert(spec_kw_text(k) =~= seq!['u', 'n', 'i', 't']); },
    }
}

impl Kw {
    /// How the keyword is spelled.
    pub fn text(&self) -> (r: String)
        ensures
            r@ == spec_kw_text(*self),
    {
        let mut s = String::new();
        match self {
            Kw::Let => { proof { reveal_strlit("let"); } push_str(&mut s, "let"); },
            Kw::Fn => { proof { reveal_strlit("fn"); } push_str(&mut s, "fn"); },
            Kw::Return => { proof { reveal_strlit("return"); } push_str(&mut s, "return"); },
            Kw::If => { proof { reveal_strlit("if"); } push_str(&mut s, "if"); },
            Kw::Else => { proof { reveal_strlit("else"); } push_str(&mut s, "else"); },
            Kw::While => { proof { reveal_strlit("while"); } push_str(&mut s, "while"); },
            Kw::Loop => { proof { reveal_strlit("loop"); } push_str(&mut s, "loop"); },
            Kw::For => { proof { reveal_strlit("for"); } push_str(&mut s, "for"); },
            Kw::In => { proof { reveal_strlit("in"); } push_str(&mut s, "in"); },
            Kw::Break => { proof { reveal_strlit("break"); } push_str(&mut s, "break"); },
            Kw::Continue => { proof { reveal_strlit("continue"); } push_str(&mut s, "continue"); },
            Kw::Struct => { proof { reveal_strlit("struct"); } push_str(&mut s, "struct"); },
            Kw::Enum => { proof { reveal_strlit("enum"); } push_str(&mut s, "enum"); },
            Kw::Trait => { proof { reveal_strlit("trait"); } push_str(&mut s, "trait"); },
            Kw::Mod => { proof { reveal_strlit("mod"); } push_str(&mut s, "mod"); },
            Kw::Match => { proof { reveal_strlit("match"); } push_str(&mut s, "match"); },
            Kw::Impl => { proof { reveal_strlit("impl"); } push_str(&mut s, "impl"); },
            Kw::Pub => { proof { reveal_strlit("pub"); } push_str(&mut s, "pub"); },
            Kw::Mut => { proof { reveal_strlit("mut"); } push_str(&mut s, "mut"); },
            Kw::Type => { proof { reveal_strlit("type"); } push_str(&mut s, "type"); },
            Kw::As => { proof { reveal_strlit("as"); } push_str(&mut s, "as"); },
            Kw::True => { proof { reveal_strlit("true"); } push_str(&mut s, "true"); },
            Kw::False => { proof { reveal_strlit("false"); } push_str(&mut s, "false"); },
            Kw::Use => { proof { reveal_strlit("use"); } push_str(&mut s, "use"); },
            Kw::Where => { proof { reveal_strlit("where"); } push_str(&mut s, "where"); },
            Kw::Extern => { proof { reveal_strlit("extern"); } push_str(&mut s, "extern"); },
            Kw::Const => { proof { reveal_strlit("const"); } push_str(&mut s, "const"); },
            Kw::Unit => { proof { reveal_strlit("unit"); } push_str(&mut s, "unit"); },
        }
        assert(s@ =~= spec_kw_text(*self));
        s
    }
}

impl Punct {
    /// How the punctuation mark is spelled.
    pub fn text(&self) -> (r: String)
        ensures
            r@ == spec_punct_text(*self),
    {
        let mut s = String::new();
        match self {
            Punct::Plus => { proof { reveal_strlit("+"); } push_str(&mut s, "+"); },
            Punct::Minus => { proof { reveal_strlit("-"); } push_str(&mut s, "-"); },
            Punct::Star => { proof { reveal_strlit("*"); } push_str(&mut s, "*"); },
            Punct::Slash => { proof { reveal_strlit("/"); } push_str(&mut s, "/"); },
            Punct::Percent => { proof { reveal_strlit("%"); } push_str(&mut s, "%"); },
            Punct::Ampersand => { proof { reveal_strlit("&"); } push_str(&mut s, "&"); },
            Punct::And => { proof { reveal_strlit("&&"); } push_str(&mut s, "&&"); },
            Punct::PlusEq => { proof { reveal_strlit("+="); } push_str(&mut s, "+="); },
            Punct::MinusEq => { proof { reveal_strlit("-="); } push_str(&mut s, "-="); },
            Punct::StarEq => { proof { reveal_strlit("*="); } push_str(&mut s, "*="); },
            Punct::SlashEq => { proof { reveal_strlit("/="); } push_str(&mut s, "/="); },
            Punct::PercentEq => { proof { reveal_strlit("%="); } push_str(&mut s, "%="); },
            Punct::Bang => { proof { reveal_strlit("!"); } push_str(&mut s, "!"); },
            Punct::Eq => { proof { reveal_strlit("="); } push_str(&mut s, "="); },
            Punct::EqEq => { proof { reveal_strlit("=="); } push_str(&mut s, "=="); },
            Punct::NotEq => { proof { reveal_strlit("!="); } push_str(&mut s, "!="); },
            Punct::Less => { proof { reveal_strlit("<"); } push_str(&mut s, "<"); },
            Punct::LessEq => { proof { reveal_strlit("<="); } push_str(&mut s, "<="); },
            Punct::Greater => { proof { reveal_strlit(">"); } push_str(&mut s, ">"); },
            Punct::GreaterEq => { proof { reveal_strlit(">="); } push_str(&mut s, ">="); },
            Punct::Arrow => { proof { reveal_strlit("->"); } push_str(&mut s, "->"); },
            Punct::FatArrow => { proof { reveal_strlit("=>"); } push_str(&mut s, "=>"); },
            Punct::Dot => { proof { reveal_strlit("."); } push_str(&mut s, "."); },
            Punct::Semicolon => { proof { reveal_strlit(";"); } push_str(&mut s, ";"); },
            Punct::Comma => { proof { reveal_strlit(","); } push_str(&mut s, ","); },
            Punct::Question => { proof { reveal_strlit("?"); } push_str(&mut s, "?"); },
            Punct::Colon => { proof { reveal_strlit(":"); } push_str(&mut s, ":"); },
            Punct::ColonColon => { proof { reveal_strlit("::"); } push_str(&mut s, "::"); },
            Punct::Underscore => { proof { reveal_strlit("_"); } push_str(&mut s, "_"); },
            Punct::Pipe => { proof { reveal_strlit("|"); } push_str(&mut s, "|"); },
            Punct::Or => { proof { reveal_strlit("||"); } push_str(&mut s, "||"); },
        }
        assert(s@ =~= spec_punct_text(*self));
        s
    }
}

impl Delimiter {
    /// How the opening delimiter is spelled.
    pub fn opening_text(&self) -> (r: String)
        ensures
            r@ == spec_opening_text(*self),
    {
        let mut s = String::new();
        match self {
            Delimiter::Paren => s.push('('),
            Delimiter::Bracket => s.push('['),
            Delimiter::Brace => s.push('{'),
        }
        assert(s@ =~= spec_opening_text(*self));
        s
    }

    /// How the closing delimiter is spelled.
    pub fn closing_text(&self) -> (r: String)
        ensures
            r@ == spec_closing_text(*self),
    {
        let mut s = String::new();
        match self {
            Delimiter::Paren => s.push(')'),
            Delimiter::Bracket => s.push(']'),
            Delimiter::Brace => s.push('}'),
        }
        assert(s@ =~= spec_closing_text(*self));
        s
    }
}

impl Literal {
    /// How the literal is written.
    pub fn text(&self) -> (r: String)
        ensures
            r@ == spec_literal_text(*self),
    {
        let mut s = String::new();
        match self {
            Literal::Integer { value, suffix } | Literal::Float { value, suffix } => {
                push_string(&mut s, value);
                match suffix {
                    Some(x) => push_string(&mut s, x),
                    None => {},
                }
            },
            Literal::Str(t) => {
                s.push('"');
                push_string(&mut s, t);
                s.push('"');
            },
        }
        assert(s@ =~= spec_literal_text(*self));
        s
    }
}

impl TokenKind {
    /// How the token is written in a message.
    pub fn text(&self) -> (r: String)
        ensures
            r@ == spec_token_text(*self),
    {
        match self {
            TokenKind::Ident(s) => s.clone(),
            TokenKind::Literal(l) => l.text(),
            TokenKind::Punctuation(p) => p.text(),
            TokenKind::OpeningDelimiter(d) => d.opening_text(),
            TokenKind::ClosingDelimiter(d) => d.closing_text(),
            TokenKind::Keyword(k) => k.text(),
            TokenKind::EOF => {
                let mut s = String::new();
                s.push('E');
                s.push('O');
                s.push('F');
                assert(s@ =~= seq!['E', 'O', 'F']);
                s
            },
        }
    }
}

/// How a token is shown with its place: `fn [offset: 0, length: 2]`.
pub open spec fn spec_token_display(t: Token) -> Seq<char> {
    spec_token_text(t.kind) + " [offset: "@ + decimal(t.span.offset as nat) + ", length: "@ + decimal(
        t.span.len as nat,
    ) + "]"@
}

impl Token {
    /// How the token is shown with its place in the source.
    pub fn text(&self) -> (r: String)
        ensures
            r@ == spec_token_display(*self),
    {
        let mut s = self.kind.text();
        push_str(&mut s, " [offset: ");
        push_decimal(&mut s, self.span.offset);
        push_str(&mut s, ", length: ");
        push_decimal(&mut s, self.span.len);
        push_str(&mut s, "]");
        assert(s@ =~= spec_token_display(*self));
        s
    }
}

/// A text that is one token and nothing else lexes to that token, then
/// the end.
pub proof fn lemma_single_token(t: Seq<char>, k: KindModel)
    requires
        t.len() > 0,
        lex_step(t, 0) == (Some(k), t.len() as int, Seq::<LexerError>::empty()),
    ensures
        lex_from(t, 0) == (
            seq![(k, span_of(t, 0, t.len() as int)), (KindModel::EOF, Span { offset: byte_at(t, t.len() as int) as usize, len: 0 })],
            Seq::<LexerError>::empty(),
        ),
{
    lemma_lex_from_step(t, 0);
    let rest = lex_from(t, t.len() as int);
    assert(rest.0 == seq![(KindModel::EOF, Span { offset: byte_at(t, t.len() as int) as usize, len: 0 })]);
    assert(lex_from(t, 0).0 =~= seq![(k, span_of(t, 0, t.len() as int))] + rest.0);
    assert(lex_from(t, 0).1 =~= Seq::<LexerError>::empty());
}

/// The text of a punctuation mark lexes back to it, alone.
pub proof fn law_punct_text_lexes_back(p: Punct)
    ensures
        ({
            let t = spec_punct_text(p);
            lex_from(t, 0) == (
                seq![(KindModel::Punctuation(p), span_of(t, 0, t.len() as int)), (KindModel::EOF, Span { offset: byte_at(t, t.len() as int) as usize, len: 0 })],
                Seq::<LexerError>::empty(),
            )
        }),
{
    let t = spec_punct_text(p);
    match p {
        Punct::Plus => {
            assert(t =~= seq!['+']);
        },
        Punct::Minus => {
            assert(t =~= seq!['-']);
        },
        Punct::Star => {
            assert(t =~= seq!['*']);
        },
        Punct::Slash => {
            assert(t =~= seq!['/']);
        },
        Punct::Percent => {
            assert(t =~= seq!['%']);
        },
        Punct::Ampersand => {
            assert(t =~= seq!['&']);
        },
        Punct::And => {
            assert(t =~= seq!['&', '&']);
        },
        Punct::PlusEq => {
            assert(t =~= seq!['+', '=']);
        },
        Punct::MinusEq => {
            assert(t =~= seq!['-', '=']);
        },
        Punct::StarEq => {
            assert(t =~= seq!['*', '=']);
        },
        Punct::SlashEq => {
            assert(t =~= seq!['/', '=']);
        },
        Punct::PercentEq => {
            assert(t =~= seq!['%', '=']);
        },
        Punct::Bang => {
            assert(t =~= seq!['!']);
        },
        Punct::Eq => {
            assert(t =~= seq!['=']);
        },
        Punct::EqEq => {
            assert(t =~= seq!['=', '=']);
        },
        Punct::NotEq => {
            assert(t =~= seq!['!', '=']);
        },
        Punct::Less => {
            assert(t =~= seq!['<']);
        },
        Punct::LessEq => {
            assert(t =~= seq!['<', '=']);
        },
        Punct::Greater => {
            assert(t =~= seq!['>']);
        },
        Punct::GreaterEq => {
            assert(t =~= seq!['>', '=']);
        },
        Punct::Arrow => {
            assert(t =~= seq!['-', '>']);
        },
        Punct::FatArrow => {
            assert(t =~= seq!['=', '>']);
        },
        Punct::Dot => {
            assert(t =~= seq!['.']);
        },
        Punct::Semicolon => {
            assert(t =~= seq![';']);
        },
        Punct::Comma => {
            assert(t =~= seq![',']);
        },
        Punct::Question => {
            assert(t =~= seq!['?']);
        },
        Punct::Colon => {
            assert(t =~= seq![':']);
        },
        Punct::ColonColon => {
            assert(t =~= seq![':', ':']);
        },
        Punct::Underscore => {
            assert(t =~= seq!['_']);
        },
        Punct::Pipe => {
            assert(t =~= seq!['|']);
        },
        Punct::Or => {
            assert(t =~= seq!['|', '|']);
        },
    }
    assert(lex_step(t, 0) == (Some(KindModel::Punctuation(p)), t.len() as int, Seq::<LexerError>::empty()));
    lemma_single_token(t, KindModel::Punctuation(p));
}

/// The text of a delimiter lexes back to it, alone.
pub proof fn law_delimiter_text_lexes_back(d: Delimiter)
    ensures
        lex_from(spec_opening_text(d), 0).0 == seq![
            (KindModel::OpeningDelimiter(d), span_of(spec_opening_text(d), 0, 1)),
            (KindModel::EOF, Span { offset: byte_at(spec_opening_text(d), 1) as usize, len: 0 }),
        ],
        lex_from(spec_closing_text(d), 0).0 == seq![
            (KindModel::ClosingDelimiter(d), span_of(spec_closing_text(d), 0, 1)),
            (KindModel::EOF, Span { offset: byte_at(spec_closing_text(d), 1) as usize, len: 0 }),
        ],
{
    let o = spec_opening_text(d);
    let c = spec_closing_text(d);
    match d {
        Delimiter::Paren => {
            assert(o =~= seq!['(']);
            assert(c =~= seq![')']);
        },
        Delimiter::Bracket => {
            assert(o =~= seq!['[']);
            assert(c =~= seq![']']);
        },
        Delimiter::Brace => {
            assert(o =~= seq!['{']);
            assert(c =~= seq!['}']);
        },
    }
    lemma_single_token(o, KindModel::OpeningDelimiter(d));
    lemma_single_token(c, KindModel::ClosingDelimiter(d));
}

/// The text of a keyword lexes back to it, alone.
pub proof fn law_keyword_text_lexes_back(k: Kw)
    ensures
        ({
            let t = spec_kw_text(k);
            lex_from(t, 0) == (
                seq![(KindModel::Keyword(k), span_of(t, 0, t.len() as int)), (KindModel::EOF, Span { offset: byte_at(t, t.len() as int) as usize, len: 0 })],
                Seq::<LexerError>::empty(),
            )
        }),
{
    let t = spec_kw_text(k);
    law_keyword_text_round_trip(k);
    match k {
        Kw::Let => {
            assert(t =~= seq!['l', 'e', 't']);
        },
        Kw::Fn => {
            assert(t =~= seq!['f', 'n']);
        },
        Kw::Return => {
            assert(t =~= seq!['r', 'e', 't', 'u', 'r', 'n']);
        },
        Kw::If => {
            assert(t =~= seq!['i', 'f']);
        },
        Kw::Else => {
            assert(t =~= seq!['e', 'l', 's', 'e']);
        },
        Kw::While => {
            assert(t =~= seq!['w', 'h', 'i', 'l', 'e']);
        },
        Kw::Loop => {
            assert(t =~= seq!['l', 'o', 'o', 'p']);
        },
        Kw::For => {
            assert(t =~= seq!['f', 'o', 'r']);
        },
        Kw::In => {
            assert(t =~= seq!['i', 'n']);
        },
        Kw::Break => {
            assert(t =~= seq!['b', 'r', 'e', 'a', 'k']);
        },
        Kw::Continue => {
            assert(t =~= seq!['c', 'o', 'n', 't', 'i', 'n', 'u', 'e']);
        },
        Kw::Struct => {
            assert(t =~= seq!['s', 't', 'r', 'u', 'c', 't']);
        },
        Kw::Enum => {
            assert(t =~= seq!['e', 'n', 'u', 'm']);
        },
        Kw::Trait => {
            assert(t =~= seq!['t', 'r', 'a', 'i', 't']);
        },
        Kw::Mod => {
            assert(t =~= seq!['m', 'o', 'd']);
        },
        Kw::Match => {
            assert(t =~= seq!['m', 'a', 't', 'c', 'h']);
        },
        Kw::Impl => {
            assert(t =~= seq!['i', 'm', 'p', 'l']);
        },
        Kw::Pub => {
            assert(t =~= seq!['p', 'u', 'b']);
        },
        Kw::Mut => {
            assert(t =~= seq!['m', 'u', 't']);
        },
        Kw::Type => {
            assert(t =~= seq!['t', 'y', 'p', 'e']);
        },
        Kw::As => {
            assert(t =~= seq!['a', 's']);
        },
        Kw::True => {
            assert(t =~= seq!['t', 'r', 'u', 'e']);
        },
        Kw::False => {
            assert(t =~= seq!['f', 'a', 'l', 's', 'e']);
        },
        Kw::Use => {
            assert(t =~= seq!['u', 's', 'e']);
        },
        Kw::Where => {
            assert(t =~= seq!['w', 'h', 'e', 'r', 'e']);
        },
        Kw::Extern => {
            assert(t =~= seq!['e', 'x', 't', 'e', 'r', 'n']);
        },
        Kw::Const => {
            assert(t =~= seq!['c', 'o', 'n', 's', 't']);
        },
        Kw::Unit => {
            assert(t =~= seq!['u', 'n', 'i', 't']);
        },
    }
    assert(run_end(t, 1, CharClass::IdentContinue) == t.len()) by {
        reveal_with_fuel(run_end, 9);
    }
    assert(t.subrange(0, t.len() as int) =~= t);
    assert(lex_step(t, 0) == (Some(KindModel::Keyword(k)), t.len() as int, Seq::<LexerError>::empty()));
    lemma_single_token(t, KindModel::Keyword(k));
}

} // verus!
