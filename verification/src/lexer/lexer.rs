use crate::lexer::chars::{
    byte_len, is_ascii_digit, is_ident_continue, is_ident_start, is_whitespace, lemma_byte_len_take_le,
    lemma_byte_len_take_step, len_utf8, spec_is_ident_continue, spec_is_whitespace, spec_len_utf8,
};
use crate::lexer::error::LexerError;
use crate::lexer::grammar::{
    block_comment_end, lemma_push_concat, lemma_push_is_concat, lemma_run_end, number_rest, number_token, run_end, string_rest, suffix_at, CharClass,
    KindModel, opt_text, lemma_lex_from_step, lex_from, lex_step, tokens_model, span_of,
};
use crate::lexer::keywords::{keyword, spec_keyword};
use crate::lexer::token::{all_digits, integer_literals_are_digits, Token};
use crate::lexer::token_kind::{Delimiter, Kw, Literal, Punct, TokenKind};
use crate::span::Span;
use crate::strings::{lemma_prefix_push, string_from_chars};
use vstd::prelude::*;

verus! {

/// Turns the characters of a source text into tokens.
///
/// `index` counts characters, `position` counts bytes (spans are byte ranges).
pub struct Lexer {
    source: Vec<char>,
    index: usize,
    position: usize,
    errors: Vec<LexerError>,
}

/// The token list is what a whole run of the lexer produces: in source order,
/// non-empty, non-overlapping, at or after `start`, and closed by the only
/// end-of-file token, an empty span at byte `total`.
pub open spec fn tokens_well_formed(toks: Seq<Token>, start: nat, total: nat) -> bool {
    &&& toks.len() >= 1
    &&& toks.last().kind is EOF
    &&& toks.last().span.offset == total
    &&& toks.last().span.len == 0
    &&& integer_literals_are_digits(toks)
    &&& forall|i: int| 0 <= i < toks.len() ==> toks[i].span.offset >= start
    &&& forall|i: int| 0 <= i < toks.len() - 1 ==> !(#[trigger] toks[i].kind is EOF)
    &&& forall|i: int| 0 <= i < toks.len() - 1 ==> #[trigger] toks[i].span.len > 0
    &&& forall|i: int|
        0 <= i < toks.len() - 1 ==> #[trigger] toks[i].span.end() <= toks[i + 1].span.offset
}

impl Lexer {
    /// The characters of the source text.
    pub closed spec fn src(&self) -> Seq<char> {
        self.source@
    }

    /// How many characters have been read.
    pub closed spec fn index(&self) -> nat {
        self.index as nat
    }

    /// How many bytes have been read.
    pub closed spec fn pos(&self) -> nat {
        self.position as nat
    }

    /// The errors reported so far.
    pub closed spec fn errs(&self) -> Seq<LexerError> {
        self.errors@
    }

    pub closed spec fn wf(&self) -> bool {
        &&& self.index <= self.source.len()
        &&& self.position == byte_len(self.source@.take(self.index as int))
        &&& byte_len(self.source@) <= usize::MAX
    }

    /// The character at `i`, if there is one.
    pub open spec fn char_at(&self, i: int) -> Option<char> {
        if 0 <= i < self.src().len() {
            Some(self.src()[i])
        } else {
            None
        }
    }

    pub fn new(source: Vec<char>) -> (l: Lexer)
        requires
            byte_len(source@) <= usize::MAX,
        ensures
            l.wf(),
            l.src() == source@,
            l.index() == 0,
            l.pos() == 0,
            l.errs().len() == 0,
    {
        proof {
            assert(source@.take(0) =~= Seq::<char>::empty());
        }
        Lexer { source, index: 0, position: 0, errors: Vec::new() }
    }

    pub fn errors(&self) -> (r: &Vec<LexerError>)
        ensures
            r@ == self.errs(),
    {
        &self.errors
    }

    pub fn tokenize(&mut self) -> (tokens: Vec<Token>)
        requires
            old(self).wf(),
        ensures
            final(self).wf(),
            final(self).src() == old(self).src(),
            final(self).index() == old(self).src().len(),
            final(self).pos() == byte_len(old(self).src()),
            old(self).errs().is_prefix_of(final(self).errs()),
            tokens_well_formed(tokens@, old(self).pos(), byte_len(old(self).src())),
            tokens_model(tokens@) == lex_from(old(self).src(), old(self).index() as int).0,
            final(self).errs() == old(self).errs() + lex_from(old(self).src(), old(self).index() as int).1,
    {
        let mut tokens: Vec<Token> = Vec::new();
        let ghost start_pos = self.position as nat;
        let ghost src = self.source@;
        let ghost i0 = self.index as int;
        while self.index < self.source.len()
            invariant
                self.wf(),
                src == old(self).source@,
                self.source@ == src,
                i0 == old(self).index,
                self.position >= start_pos,
                start_pos == old(self).position,
                forall|i: int| 0 <= i < tokens.len() ==> !(#[trigger] tokens@[i].kind is EOF),
                forall|i: int| 0 <= i < tokens.len() ==> #[trigger] tokens@[i].span.len > 0,
                forall|i: int| 0 <= i < tokens.len() ==> #[trigger] tokens@[i].span.offset >= start_pos,
                forall|i: int| 0 <= i < tokens.len() ==> #[trigger] tokens@[i].span.end() <= self.position,
                forall|i: int|
                    0 <= i < tokens.len() - 1 ==> #[trigger] tokens@[i].span.end() <= tokens@[i + 1].span.offset,
                integer_literals_are_digits(tokens@),
                tokens_model(tokens@) + lex_from(src, self.index as int).0 == lex_from(src, i0).0,
                self.errors@ + lex_from(src, self.index as int).1 == old(self).errors@ + lex_from(src, i0).1,
            decreases self.source.len() - self.index,
        {
            let ghost k = self.index as int;
            let ghost errs = self.errors@;
            let ghost toks = tokens@;
            proof {
                lemma_lex_from_step(src, k);
            }
            let start = self.position;
            match self.lex_token() {
                Some(kind) => {
                    let token = Token::new(kind, Span::new(start, self.position - start));
                    tokens.push(token);
                    proof {
                        assert(tokens_model(tokens@) =~= tokens_model(toks).push(
                            (kind.model(), span_of(src, k, self.index as int)),
                        ));
                        assert(tokens_model(tokens@) + lex_from(src, self.index as int).0 =~= tokens_model(
                            toks,
                        ) + lex_from(src, k).0);
                        assert(integer_literals_are_digits(tokens@)) by {
                            assert forall|i: int| 0 <= i < tokens.len() implies match #[trigger] tokens@[i].kind {
                                TokenKind::Literal(Literal::Integer { value, .. }) => all_digits(value@),
                                _ => true,
                            } by {
                                if i < toks.len() {
                                    assert(tokens@[i] == toks[i]);
                                }
                            }
                        }
                    }
                },
                None => {},
            }
            proof {
                assert(self.errors@ + lex_from(src, self.index as int).1 =~= errs + lex_from(src, k).1);
            }
        }
        proof {
            assert(self.source@.take(self.source.len() as int) =~= self.source@);
            assert(tokens_model(tokens@.push(Token { kind: TokenKind::EOF, span: Span { offset: self.position, len: 0 } }))
                =~= tokens_model(tokens@) + lex_from(src, self.index as int).0);
            assert(self.errors@ =~= self.errors@ + lex_from(src, self.index as int).1);
        }
        tokens.push(Token::new(TokenKind::EOF, Span::new(self.position, 0)));
        tokens
    }

    /// Reads the token that starts at the current character, or skips what
    /// makes none there (whitespace, a comment, an unexpected character).
    fn lex_token(&mut self) -> (r: Option<TokenKind>)
        requires
            old(self).wf(),
            old(self).index < old(self).source.len(),
        ensures
            final(self).wf(),
            final(self).source@ == old(self).source@,
            final(self).position > old(self).position,
            ({
                let s = lex_step(old(self).src(), old(self).index as int);
                &&& final(self).index == s.1
                &&& final(self).errors@ == old(self).errors@ + s.2
                &&& match r {
                    Some(k) => s.0 == Some(k.model()),
                    None => s.0 is None,
                }
            }),
            r matches Some(k) ==> !(k is EOF),
            r matches Some(TokenKind::Literal(Literal::Integer { value, .. })) ==> all_digits(value@),
    {
        let ghost src = self.source@;
        let ghost k = self.index as int;
        let start = self.position;
        let c = self.source[self.index];
        self.advance();
        let kind: TokenKind;
        if c == '(' {
            kind = TokenKind::OpeningDelimiter(Delimiter::Paren);
        } else if c == ')' {
            kind = TokenKind::ClosingDelimiter(Delimiter::Paren);
        } else if c == '[' {
            kind = TokenKind::OpeningDelimiter(Delimiter::Bracket);
        } else if c == ']' {
            kind = TokenKind::ClosingDelimiter(Delimiter::Bracket);
        } else if c == '{' {
            kind = TokenKind::OpeningDelimiter(Delimiter::Brace);
        } else if c == '}' {
            kind = TokenKind::ClosingDelimiter(Delimiter::Brace);
        } else if c == '+' {
            kind = if self.match_char('=') {
                TokenKind::Punctuation(Punct::PlusEq)
            } else {
                TokenKind::Punctuation(Punct::Plus)
            };
        } else if c == '-' {
            kind = if self.match_char('=') {
                TokenKind::Punctuation(Punct::MinusEq)
            } else if self.match_char('>') {
                TokenKind::Punctuation(Punct::Arrow)
            } else {
                TokenKind::Punctuation(Punct::Minus)
            };
        } else if c == '*' {
            kind = if self.match_char('=') {
                TokenKind::Punctuation(Punct::StarEq)
            } else {
                TokenKind::Punctuation(Punct::Star)
            };
        } else if c == '/' {
            if self.match_char('=') {
                kind = TokenKind::Punctuation(Punct::SlashEq);
            } else if self.match_char('/') {
                self.skip_line_comment();
                assert(self.errors@ =~= old(self).errors@ + seq![]);
                return None;
            } else if self.match_char('*') {
                self.skip_block_comment(start);
                return None;
            } else {
                kind = TokenKind::Punctuation(Punct::Slash);
            }
        } else if c == '%' {
            kind = if self.match_char('=') {
                TokenKind::Punctuation(Punct::PercentEq)
            } else {
                TokenKind::Punctuation(Punct::Percent)
            };
        } else if c == '&' {
            kind = if self.match_char('&') {
                TokenKind::Punctuation(Punct::And)
            } else {
                TokenKind::Punctuation(Punct::Ampersand)
            };
        } else if c == '=' {
            kind = if self.match_char('=') {
                TokenKind::Punctuation(Punct::EqEq)
            } else if self.match_char('>') {
                TokenKind::Punctuation(Punct::FatArrow)
            } else {
                TokenKind::Punctuation(Punct::Eq)
            };
        } else if c == '!' {
            kind = if self.match_char('=') {
                TokenKind::Punctuation(Punct::NotEq)
            } else {
                TokenKind::Punctuation(Punct::Bang)
            };
        } else if c == '<' {
            kind = if self.match_char('=') {
                TokenKind::Punctuation(Punct::LessEq)
            } else {
                TokenKind::Punctuation(Punct::Less)
            };
        } else if c == '>' {
            kind = if self.match_char('=') {
                TokenKind::Punctuation(Punct::GreaterEq)
            } else {
                TokenKind::Punctuation(Punct::Greater)
            };
        } else if c == '.' {
            kind = TokenKind::Punctuation(Punct::Dot);
        } else if c == ',' {
            kind = TokenKind::Punctuation(Punct::Comma);
        } else if c == ';' {
            kind = TokenKind::Punctuation(Punct::Semicolon);
        } else if c == '?' {
            kind = TokenKind::Punctuation(Punct::Question);
        } else if c == '_' && self.is_standalone_underscore() {
            kind = TokenKind::Punctuation(Punct::Underscore);
        } else if c == '|' {
            kind = if self.match_char('|') {
                TokenKind::Punctuation(Punct::Or)
            } else {
                TokenKind::Punctuation(Punct::Pipe)
            };
        } else if c == ':' {
            kind = if self.match_char(':') {
                TokenKind::Punctuation(Punct::ColonColon)
            } else {
                TokenKind::Punctuation(Punct::Colon)
            };
        } else if c == '"' {
            proof {
                lemma_byte_len_take_step(src, k);
            }
            let kind = self.lex_string();
            return Some(kind);
        } else if is_ascii_digit(c) {
            kind = self.lex_number();
        } else if is_whitespace(c) {
            self.skip_whitespace();
            assert(self.errors@ =~= old(self).errors@ + seq![]);
            return None;
        } else if is_ident_start(c) {
            kind = self.lex_identifier();
        } else {
            self.errors.push(
                LexerError::UnexpectedCharacter { span: Span::new(start, 0), character: c },
            );
            proof {
                let e = LexerError::UnexpectedCharacter { span: Span { offset: start, len: 0 }, character: c };
                assert(self.errors@ == old(self).errors@.push(e));
                lemma_push_is_concat(old(self).errors@, e);
            }
            return None;
        }
        assert(self.errors@ =~= old(self).errors@ + seq![]);
        Some(kind)
    }

    fn peek(&self) -> (r: Option<char>)
        requires
            self.wf(),
        ensures
            r == self.char_at(self.index as int),
    {
        if self.index < self.source.len() {
            Some(self.source[self.index])
        } else {
            None
        }
    }

    /// The character after the current one.
    fn peek_next(&self) -> (r: Option<char>)
        requires
            self.wf(),
        ensures
            r == self.char_at(self.index + 1),
    {
        if self.index < self.source.len() && self.index + 1 < self.source.len() {
            Some(self.source[self.index + 1])
        } else {
            None
        }
    }

    fn advance(&mut self) -> (r: Option<char>)
        requires
            old(self).wf(),
        ensures
            final(self).wf(),
            final(self).source@ == old(self).source@,
            final(self).errors@ == old(self).errors@,
            r == old(self).char_at(old(self).index as int),
            old(self).index < old(self).source.len() ==> final(self).index == old(self).index + 1
                && final(self).position == old(self).position + spec_len_utf8(
                old(self).source@[old(self).index as int],
            ),
            old(self).index >= old(self).source.len() ==> final(self).index == old(self).index
                && final(self).position == old(self).position,
    {
        if self.index < self.source.len() {
            let c = self.source[self.index];
            proof {
                lemma_byte_len_take_step(self.source@, self.index as int);
                lemma_byte_len_take_le(self.source@, self.index + 1);
            }
            self.position = self.position + len_utf8(c);
            self.index = self.index + 1;
            Some(c)
        } else {
            None
        }
    }

    fn match_char(&mut self, expected: char) -> (r: bool)
        requires
            old(self).wf(),
        ensures
            final(self).wf(),
            final(self).source@ == old(self).source@,
            final(self).errors@ == old(self).errors@,
            r == (old(self).char_at(old(self).index as int) == Some(expected)),
            final(self).index == old(self).index + if r {
                1int
            } else {
                0
            },
            final(self).position >= old(self).position,
    {
        match self.peek() {
            Some(c) => {
                if c == expected {
                    self.advance();
                    true
                } else {
                    false
                }
            },
            None => false,
        }
    }

    fn skip_whitespace(&mut self)
        requires
            old(self).wf(),
        ensures
            final(self).wf(),
            final(self).source@ == old(self).source@,
            final(self).errors@ == old(self).errors@,
            final(self).index >= old(self).index,
            final(self).position >= old(self).position,
            forall|j: int|
                old(self).index <= j < final(self).index ==> spec_is_whitespace(
                    #[trigger] final(self).source@[j],
                ),
            final(self).index == final(self).source.len() || !spec_is_whitespace(
                final(self).source@[final(self).index as int],
            ),
            final(self).index == run_end(old(self).src(), old(self).index as int, CharClass::Whitespace),
    {
        loop
            invariant
                self.wf(),
                self.source@ == old(self).source@,
                self.errors@ == old(self).errors@,
                self.index >= old(self).index,
                self.position >= old(self).position,
                forall|j: int|
                    old(self).index <= j < self.index ==> spec_is_whitespace(
                        #[trigger] self.source@[j],
                    ),
            ensures
                self.wf(),
                self.source@ == old(self).source@,
                self.errors@ == old(self).errors@,
                self.index >= old(self).index,
                self.position >= old(self).position,
                forall|j: int|
                    old(self).index <= j < self.index ==> spec_is_whitespace(
                        #[trigger] self.source@[j],
                    ),
                self.index == self.source.len() || !spec_is_whitespace(
                    self.source@[self.index as int],
                ),
            decreases self.source.len() - self.index,
        {
            match self.peek() {
                Some(c) => {
                    if is_whitespace(c) {
                        self.advance();
                    } else {
                        break;
                    }
                },
                None => break,
            }
        }
        proof {
            lemma_run_end(self.source@, old(self).index as int, self.index as int, CharClass::Whitespace);
        }
    }

    /// Skips the rest of a `//` comment, up to the end of the line.
    fn skip_line_comment(&mut self)
        requires
            old(self).wf(),
        ensures
            final(self).wf(),
            final(self).source@ == old(self).source@,
            final(self).errors@ == old(self).errors@,
            final(self).index >= old(self).index,
            final(self).position >= old(self).position,
            forall|j: int|
                old(self).index <= j < final(self).index ==> #[trigger] final(self).source@[j]
                    != '\n',
            final(self).index == final(self).source.len() || final(self).source@[final(self).index as int] == '\n',
            final(self).index == run_end(old(self).src(), old(self).index as int, CharClass::NotNewline),
    {
        loop
            invariant
                self.wf(),
                self.source@ == old(self).source@,
                self.errors@ == old(self).errors@,
                self.index >= old(self).index,
                self.position >= old(self).position,
                forall|j: int| old(self).index <= j < self.index ==> #[trigger] self.source@[j] != '\n',
            ensures
                self.wf(),
                self.source@ == old(self).source@,
                self.errors@ == old(self).errors@,
                self.index >= old(self).index,
                self.position >= old(self).position,
                forall|j: int| old(self).index <= j < self.index ==> #[trigger] self.source@[j] != '\n',
                self.index == self.source.len() || self.source@[self.index as int] == '\n',
            decreases self.source.len() - self.index,
        {
            match self.peek() {
                Some(c) => {
                    if c == '\n' {
                        break;
                    }
                    self.advance();
                },
                None => break,
            }
        }
        proof {
            lemma_run_end(self.source@, old(self).index as int, self.index as int, CharClass::NotNewline);
        }
    }

    /// Skips the rest of a `/*` comment, which may nest; `start` is the byte
    /// of its `/`. A comment that never closes is reported.
    fn skip_block_comment(&mut self, start: usize)
        requires
            old(self).wf(),
        ensures
            final(self).wf(),
            final(self).source@ == old(self).source@,
            final(self).index >= old(self).index,
            final(self).position >= old(self).position,
            ({
                let b = block_comment_end(old(self).src(), old(self).index as int, 1);
                &&& final(self).index == b.0
                &&& final(self).errors@ == old(self).errors@ + if b.1 {
                    seq![LexerError::UnterminatedComment { span: Span { offset: start, len: 1 } }]
                } else {
                    seq![]
                }
            }),
    {
        let mut depth: usize = 1;
        let ghost idx0 = self.index;
        while depth > 0
            invariant
                self.wf(),
                self.source@ == old(self).source@,
                self.errors@ == old(self).errors@,
                self.index >= idx0,
                idx0 == old(self).index,
                self.position >= old(self).position,
                2 * depth <= self.index - idx0 + 2,
                block_comment_end(self.source@, self.index as int, depth as nat) == block_comment_end(
                    self.source@,
                    idx0 as int,
                    1,
                ),
            decreases self.source.len() - self.index,
        {
            let c = self.advance();
            match c {
                None => {
                    self.errors.push(
                        LexerError::UnterminatedComment { span: Span::new(start, 1) },
                    );
                    assert(self.errors@ =~= old(self).errors@ + seq![
                        LexerError::UnterminatedComment { span: Span { offset: start, len: 1 } },
                    ]);
                    return ;
                },
                Some(ch) => {
                    if ch == '/' {
                        if self.match_char('*') {
                            depth = depth + 1;
                        }
                    } else if ch == '*' {
                        if self.match_char('/') {
                            depth = depth - 1;
                        }
                    }
                },
            }
        }
        assert(self.errors@ =~= old(self).errors@ + seq![]);
    }

    fn is_standalone_underscore(&self) -> (r: bool)
        requires
            self.wf(),
        ensures
            r == !(self.index < self.src().len() && spec_is_ident_continue(
                self.src()[self.index as int],
            )),
    {
        match self.peek() {
            Some(next) => !is_ident_continue(next),
            None => true,
        }
    }

    /// Collects the identifier whose first character was just read.
    fn collect_identifier(&mut self) -> (value: Vec<char>)
        requires
            old(self).wf(),
            old(self).index >= 1,
        ensures
            final(self).wf(),
            final(self).source@ == old(self).source@,
            final(self).errors@ == old(self).errors@,
            final(self).index >= old(self).index,
            final(self).position >= old(self).position,
            value@ == old(self).source@.subrange(old(self).index - 1, final(self).index as int),
            forall|j: int|
                old(self).index <= j < final(self).index ==> spec_is_ident_continue(
                    #[trigger] final(self).source@[j],
                ),
            final(self).index == final(self).source.len() || !spec_is_ident_continue(
                final(self).source@[final(self).index as int],
            ),
            final(self).index == run_end(old(self).src(), old(self).index as int, CharClass::IdentContinue),
    {
        let mut value: Vec<char> = Vec::new();
        value.push(self.source[self.index - 1]);
        loop
            invariant
                self.wf(),
                self.source@ == old(self).source@,
                self.errors@ == old(self).errors@,
                self.index >= old(self).index,
                self.position >= old(self).position,
                old(self).index >= 1,
                value@ == self.source@.subrange(old(self).index - 1, self.index as int),
                forall|j: int|
                    old(self).index <= j < self.index ==> spec_is_ident_continue(
                        #[trigger] self.source@[j],
                    ),
            ensures
                self.wf(),
                self.source@ == old(self).source@,
                self.errors@ == old(self).errors@,
                self.index >= old(self).index,
                self.position >= old(self).position,
                value@ == self.source@.subrange(old(self).index - 1, self.index as int),
                forall|j: int|
                    old(self).index <= j < self.index ==> spec_is_ident_continue(
                        #[trigger] self.source@[j],
                    ),
                self.index == self.source.len() || !spec_is_ident_continue(
                    self.source@[self.index as int],
                ),
            decreases self.source.len() - self.index,
        {
            match self.peek() {
                Some(c) => {
                    if is_ident_continue(c) {
                        value.push(c);
                        self.advance();
                        assert(value@ =~= self.source@.subrange(
                            old(self).index - 1,
                            self.index as int,
                        ));
                    } else {
                        break;
                    }
                },
                None => break,
            }
        }
        proof {
            lemma_run_end(self.source@, old(self).index as int, self.index as int, CharClass::IdentContinue);
        }
        value
    }

    /// Lexes an identifier or keyword whose first character was just read.
    fn lex_identifier(&mut self) -> (kind: TokenKind)
        requires
            old(self).wf(),
            old(self).index >= 1,
        ensures
            final(self).wf(),
            final(self).source@ == old(self).source@,
            final(self).errors@ == old(self).errors@,
            final(self).index >= old(self).index,
            final(self).position >= old(self).position,
            ({
                let text = old(self).source@.subrange(
                    old(self).index - 1,
                    final(self).index as int,
                );
                match spec_keyword(text) {
                    Some(k) => kind == TokenKind::Keyword(k),
                    None => kind matches TokenKind::Ident(s) && s@ == text,
                }
            }),
            final(self).index == run_end(old(self).src(), old(self).index as int, CharClass::IdentContinue),
    {
        let value = self.collect_identifier();
        match keyword(&value) {
            Some(k) => TokenKind::Keyword(k),
            None => TokenKind::Ident(string_from_chars(&value)),
        }
    }

    /// Lexes a number whose first digit was just read: digits with `_`
    /// separators, at most one `.` followed by a digit, then an optional
    /// suffix in the shape of an identifier.
    fn lex_number(&mut self) -> (kind: TokenKind)
        requires
            old(self).wf(),
            old(self).index >= 1,
            '0' <= old(self).source@[old(self).index - 1] <= '9',
        ensures
            final(self).wf(),
            final(self).source@ == old(self).source@,
            final(self).errors@ == old(self).errors@,
            final(self).index >= old(self).index,
            final(self).position >= old(self).position,
            kind matches TokenKind::Literal(Literal::Integer { value, .. }) && all_digits(value@)
                || kind matches TokenKind::Literal(Literal::Float { .. }),
            (kind.model(), final(self).index as int) == number_token(old(self).src(), old(self).index as int),
    {
        let mut value: Vec<char> = Vec::new();
        let mut has_dot = false;
        let ghost idx0 = self.index as int;
        let ghost src = self.source@;
        let ghost first = self.source@[self.index - 1];
        value.push(self.source[self.index - 1]);
        loop
            invariant
                self.wf(),
                self.source@ == old(self).source@,
                src == old(self).source@,
                idx0 == old(self).index,
                self.errors@ == old(self).errors@,
                self.index >= old(self).index,
                self.position >= old(self).position,
                !has_dot ==> all_digits(value@),
                number_rest(src, self.index as int, has_dot).0 == number_rest(src, idx0, false).0,
                number_rest(src, self.index as int, has_dot).1 == number_rest(src, idx0, false).1,
                value@ + number_rest(src, self.index as int, has_dot).2 == seq![first] + number_rest(
                    src,
                    idx0,
                    false,
                ).2,
            ensures
                self.wf(),
                self.source@ == old(self).source@,
                self.errors@ == old(self).errors@,
                self.index >= old(self).index,
                self.position >= old(self).position,
                !has_dot ==> all_digits(value@),
                self.index == number_rest(src, idx0, false).0,
                has_dot == number_rest(src, idx0, false).1,
                value@ == seq![first] + number_rest(src, idx0, false).2,
            decreases self.source.len() - self.index,
        {
            let ghost k = self.index as int;
            match self.peek() {
                Some(c) => {
                    if c == '_' {
                        self.advance();
                    } else if is_ascii_digit(c) {
                        let ghost before = value@;
                        value.push(c);
                        self.advance();
                        assert(value@ + number_rest(src, self.index as int, has_dot).2 =~= before
                            + number_rest(src, k, has_dot).2);
                    } else if c == '.' && !has_dot && match self.peek_next() {
                        Some(n) => is_ascii_digit(n),
                        None => false,
                    } {
                        let ghost before = value@;
                        has_dot = true;
                        value.push(c);
                        self.advance();
                        assert(value@ + number_rest(src, self.index as int, has_dot).2 =~= before
                            + number_rest(src, k, false).2);
                    } else {
                        assert(value@ =~= value@ + number_rest(src, k, has_dot).2);
                        break;
                    }
                },
                None => {
                    assert(value@ =~= value@ + number_rest(src, k, has_dot).2);
                    break;
                },
            }
        }
        let ghost e = self.index as int;
        let suffix = match self.peek() {
            Some(c) => {
                if is_ident_start(c) {
                    self.advance();
                    let s = self.collect_identifier();
                    Some(string_from_chars(&s))
                } else {
                    None
                }
            },
            None => None,
        };
        assert(suffix_at(src, e).0 == self.index && suffix_at(src, e).1 == opt_text(suffix));
        let value = string_from_chars(&value);
        if has_dot {
            TokenKind::Literal(Literal::Float { value, suffix })
        } else {
            TokenKind::Literal(Literal::Integer { value, suffix })
        }
    }

    /// Lexes a string literal whose opening quote was just read.
    fn lex_string(&mut self) -> (kind: TokenKind)
        requires
            old(self).wf(),
            old(self).index >= 1,
            old(self).position >= 1,
        ensures
            final(self).wf(),
            final(self).source@ == old(self).source@,
            old(self).errors@.is_prefix_of(final(self).errors@),
            final(self).index >= old(self).index,
            final(self).position >= old(self).position,
            kind matches TokenKind::Literal(Literal::Str(_)),
            ({
                let r = string_rest(old(self).src(), old(self).index as int);
                &&& kind.model() == KindModel::Str(r.1)
                &&& final(self).index == r.0
                &&& final(self).errors@ == old(self).errors@ + if r.3 {
                    r.2
                } else {
                    r.2.push(
                        LexerError::UnterminatedString {
                            span: Span { offset: (old(self).pos() - 1) as usize, len: 0 },
                        },
                    )
                }
            }),
    {
        let mut value: Vec<char> = Vec::new();
        let start_quote = self.position;
        let ghost src = self.source@;
        let ghost idx0 = self.index as int;
        loop
            invariant
                self.wf(),
                self.source@ == old(self).source@,
                src == old(self).source@,
                idx0 == old(self).index,
                old(self).errors@.is_prefix_of(self.errors@),
                self.index >= old(self).index,
                self.position >= old(self).position,
                start_quote == old(self).position,
                start_quote >= 1,
                string_rest(src, self.index as int).0 == string_rest(src, idx0).0,
                string_rest(src, self.index as int).3 == string_rest(src, idx0).3,
                value@ + string_rest(src, self.index as int).1 == string_rest(src, idx0).1,
                self.errors@ + string_rest(src, self.index as int).2 == old(self).errors@ + string_rest(
                    src,
                    idx0,
                ).2,
            ensures
                self.wf(),
                self.source@ == old(self).source@,
                old(self).errors@.is_prefix_of(self.errors@),
                self.index >= old(self).index,
                self.position >= old(self).position,
                self.index == self.source.len(),
                string_rest(src, self.index as int).0 == string_rest(src, idx0).0,
                string_rest(src, self.index as int).3 == string_rest(src, idx0).3,
                value@ + string_rest(src, self.index as int).1 == string_rest(src, idx0).1,
                self.errors@ + string_rest(src, self.index as int).2 == old(self).errors@ + string_rest(
                    src,
                    idx0,
                ).2,
            decreases self.source.len() - self.index,
        {
            let ghost k = self.index as int;
            let ghost errs = self.errors@;
            let ghost before = value@;
            let c = match self.peek() {
                Some(c) => c,
                None => break,
            };
            self.advance();
            if c == '"' {
                assert(value@ =~= value@ + string_rest(src, k).1);
                assert(self.errors@ =~= self.errors@ + string_rest(src, k).2);
                return TokenKind::Literal(Literal::Str(string_from_chars(&value)));
            } else if c == '\\' {
                match self.advance() {
                    Some(next) => {
                        if next == 'n' {
                            value.push('\n');
                        } else if next == 't' {
                            value.push('\t');
                        } else if next == 'r' {
                            value.push('\r');
                        } else if next == '\\' {
                            value.push('\\');
                        } else if next == '"' {
                            value.push('"');
                        } else {
                            proof {
                                lemma_prefix_push(
                                    old(self).errors@,
                                    self.errors@,
                                    LexerError::InvalidEscapeCharacter {
                                        span: Span { offset: (self.position - 1) as usize, len: 0 },
                                        character: next,
                                    },
                                );
                            }
                            self.errors.push(
                                LexerError::InvalidEscapeCharacter {
                                    span: Span::new(self.position - 1, 0),
                                    character: next,
                                },
                            );
                            assert(string_rest(src, k).2 == seq![
                                LexerError::InvalidEscapeCharacter {
                                    span: Span { offset: (byte_len(src.take(k + 2)) - 1) as usize, len: 0 },
                                    character: next,
                                },
                            ] + string_rest(src, k + 2).2);
                            proof {
                                let e = LexerError::InvalidEscapeCharacter {
                                    span: Span { offset: (byte_len(src.take(k + 2)) - 1) as usize, len: 0 },
                                    character: next,
                                };
                                let r2 = string_rest(src, k + 2).2;
                                lemma_push_concat(errs, e, r2);
                            }
                        }
                        assert(value@ + string_rest(src, self.index as int).1 =~= before + string_rest(
                            src,
                            k,
                        ).1);
                    },
                    None => {},
                }
            } else {
                value.push(c);
                assert(value@ + string_rest(src, self.index as int).1 =~= before + string_rest(src, k).1);
            }
        }
        proof {
            lemma_prefix_push(
                old(self).errors@,
                self.errors@,
                LexerError::UnterminatedString { span: Span { offset: (start_quote - 1) as usize, len: 0 } },
            );
            assert(value@ =~= value@ + string_rest(src, self.index as int).1);
            assert(self.errors@ =~= self.errors@ + string_rest(src, self.index as int).2);
        }
        self.errors.push(LexerError::UnterminatedString { span: Span::new(start_quote - 1, 0) });
        TokenKind::Literal(Literal::Str(string_from_chars(&value)))
    }
}

} // verus!
