use crate::lexer::chars::{
    byte_len, spec_is_ascii_digit, spec_is_ident_continue, spec_is_ident_start, spec_is_whitespace,
};
use crate::lexer::error::LexerError;
use crate::lexer::keywords::spec_keyword;
use crate::lexer::token::Token;
use crate::lexer::token_kind::{Delimiter, Kw, Literal, Punct, TokenKind};
use crate::span::Span;
use vstd::prelude::*;

verus! {

/// A token kind as a mathematical value: its texts become sequences.
pub enum KindModel {
    Ident(Seq<char>),
    Integer(Seq<char>, Option<Seq<char>>),
    Float(Seq<char>, Option<Seq<char>>),
    Str(Seq<char>),
    Punctuation(Punct),
    OpeningDelimiter(Delimiter),
    ClosingDelimiter(Delimiter),
    Keyword(Kw),
    EOF,
}

/// The text of an optional suffix.
pub open spec fn opt_text(s: Option<String>) -> Option<Seq<char>> {
    match s {
        Some(t) => Some(t@),
        None => None,
    }
}

impl TokenKind {
    pub open spec fn model(self) -> KindModel {
        match self {
            TokenKind::Ident(s) => KindModel::Ident(s@),
            TokenKind::Literal(Literal::Integer { value, suffix }) => KindModel::Integer(
                value@,
                opt_text(suffix),
            ),
            TokenKind::Literal(Literal::Float { value, suffix }) => KindModel::Float(
                value@,
                opt_text(suffix),
            ),
            TokenKind::Literal(Literal::Str(s)) => KindModel::Str(s@),
            TokenKind::Punctuation(p) => KindModel::Punctuation(p),
            TokenKind::OpeningDelimiter(d) => KindModel::OpeningDelimiter(d),
            TokenKind::ClosingDelimiter(d) => KindModel::ClosingDelimiter(d),
            TokenKind::Keyword(k) => KindModel::Keyword(k),
            TokenKind::EOF => KindModel::EOF,
        }
    }
}

/// Each token as its kind's model and its span.
pub open spec fn tokens_model(toks: Seq<Token>) -> Seq<(KindModel, Span)> {
    toks.map_values(|t: Token| (t.kind.model(), t.span))
}

/// The byte at which character `i` of `src` starts.
pub open spec fn byte_at(src: Seq<char>, i: int) -> nat {
    byte_len(src.take(i))
}

/// The span of the characters of `src` from `i` up to `j`.
pub open spec fn span_of(src: Seq<char>, i: int, j: int) -> Span {
    Span { offset: byte_at(src, i) as usize, len: (byte_at(src, j) - byte_at(src, i)) as usize }
}

/// Character `i` of `src` is `c`.
pub open spec fn char_is(src: Seq<char>, i: int, c: char) -> bool {
    0 <= i < src.len() && src[i] == c
}

/// The runs of characters that the lexer skips or collects in one go.
pub enum CharClass {
    Whitespace,
    NotNewline,
    IdentContinue,
}

pub open spec fn in_class(cl: CharClass, c: char) -> bool {
    match cl {
        CharClass::Whitespace => spec_is_whitespace(c),
        CharClass::NotNewline => c != '\n',
        CharClass::IdentContinue => spec_is_ident_continue(c),
    }
}

/// The first index from `i` on whose character is not of the class (or the end).
pub open spec fn run_end(src: Seq<char>, i: int, cl: CharClass) -> int
    decreases src.len() - i,
{
    if 0 <= i < src.len() && in_class(cl, src[i]) {
        run_end(src, i + 1, cl)
    } else {
        i
    }
}

/// Pushing an element and then appending is appending the element first.
pub proof fn lemma_push_concat<T>(a: Seq<T>, e: T, b: Seq<T>)
    ensures
        a.push(e) + b == a + (seq![e] + b),
{
    assert forall|i: int| 0 <= i < a.len() + 1 + b.len() implies #[trigger] (a.push(e) + b)[i] == (a + (
    seq![e] + b))[i] by {
        if i < a.len() {
        } else if i == a.len() {
        } else {
        }
    }
    assert(a.push(e) + b =~= a + (seq![e] + b));
}

/// Pushing an element is appending a sequence of that one element.
pub proof fn lemma_push_is_concat<T>(a: Seq<T>, e: T)
    ensures
        a.push(e) == a + seq![e],
{
    assert forall|i: int| 0 <= i < a.len() + 1 implies #[trigger] a.push(e)[i] == (a + seq![e])[i] by {
        if i < a.len() {
        } else {
        }
    }
    assert(a.push(e) =~= a + seq![e]);
}

/// A run that stops at `j` ends at `j`.
pub proof fn lemma_run_end(src: Seq<char>, i: int, j: int, cl: CharClass)
    requires
        0 <= i <= j <= src.len(),
        forall|k: int| i <= k < j ==> in_class(cl, #[trigger] src[k]),
        j == src.len() || !in_class(cl, src[j]),
    ensures
        run_end(src, i, cl) == j,
    decreases j - i,
{
    if i < j {
        lemma_run_end(src, i + 1, j, cl);
    }
}

/// Where a block comment that is `depth` levels deep at `i` ends, and
/// whether the text ends first.
pub open spec fn block_comment_end(src: Seq<char>, i: int, depth: nat) -> (int, bool)
    decreases src.len() - i,
{
    if depth == 0 {
        (i, false)
    } else if !(0 <= i < src.len()) {
        (i, true)
    } else if src[i] == '/' && char_is(src, i + 1, '*') {
        block_comment_end(src, i + 2, depth + 1)
    } else if src[i] == '*' && char_is(src, i + 1, '/') {
        block_comment_end(src, i + 2, (depth - 1) as nat)
    } else {
        block_comment_end(src, i + 1, depth)
    }
}

/// The rest of a number from `i`: where it ends, whether it holds a `.`,
/// and its digits and dot (the `_` separators left out). A `.` belongs to
/// the number only once, and only before a digit.
pub open spec fn number_rest(src: Seq<char>, i: int, has_dot: bool) -> (int, bool, Seq<char>)
    decreases src.len() - i,
{
    if 0 <= i < src.len() {
        let c = src[i];
        if c == '_' {
            number_rest(src, i + 1, has_dot)
        } else if spec_is_ascii_digit(c) {
            let r = number_rest(src, i + 1, has_dot);
            (r.0, r.1, seq![c] + r.2)
        } else if c == '.' && !has_dot && 0 <= i + 1 < src.len() && spec_is_ascii_digit(src[i + 1]) {
            let r = number_rest(src, i + 1, true);
            (r.0, r.1, seq![c] + r.2)
        } else {
            (i, has_dot, seq![])
        }
    } else {
        (i, has_dot, seq![])
    }
}

/// The suffix in the shape of an identifier that may follow a number at `i`,
/// and where it ends.
pub open spec fn suffix_at(src: Seq<char>, i: int) -> (int, Option<Seq<char>>) {
    if 0 <= i < src.len() && spec_is_ident_start(src[i]) {
        let e = run_end(src, i + 1, CharClass::IdentContinue);
        (e, Some(src.subrange(i, e)))
    } else {
        (i, None)
    }
}

/// The number whose first digit is just before `i`, and where it ends.
pub open spec fn number_token(src: Seq<char>, i: int) -> (KindModel, int) {
    let r = number_rest(src, i, false);
    let value = seq![src[i - 1]] + r.2;
    let s = suffix_at(src, r.0);
    (
        if r.1 {
            KindModel::Float(value, s.1)
        } else {
            KindModel::Integer(value, s.1)
        },
        s.0,
    )
}

/// The character that an escape `\c` stands for.
pub open spec fn escaped(c: char) -> Option<char> {
    if c == 'n' {
        Some('\n')
    } else if c == 't' {
        Some('\t')
    } else if c == 'r' {
        Some('\r')
    } else if c == '\\' {
        Some('\\')
    } else if c == '"' {
        Some('"')
    } else {
        None
    }
}

/// The rest of a string literal from `i`: where it ends, its contents, the
/// invalid escapes found (each reported at the byte before the end of its
/// character), and whether the closing quote was found.
pub open spec fn string_rest(src: Seq<char>, i: int) -> (int, Seq<char>, Seq<LexerError>, bool)
    decreases src.len() - i,
{
    if !(0 <= i < src.len()) {
        (i, seq![], seq![], false)
    } else if src[i] == '"' {
        (i + 1, seq![], seq![], true)
    } else if src[i] == '\\' {
        if i + 1 < src.len() {
            let n = src[i + 1];
            let r = string_rest(src, i + 2);
            match escaped(n) {
                Some(e) => (r.0, seq![e] + r.1, r.2, r.3),
                None => (
                    r.0,
                    r.1,
                    seq![
                        LexerError::InvalidEscapeCharacter {
                            span: Span { offset: (byte_at(src, i + 2) - 1) as usize, len: 0 },
                            character: n,
                        },
                    ] + r.2,
                    r.3,
                ),
            }
        } else {
            string_rest(src, i + 1)
        }
    } else {
        let r = string_rest(src, i + 1);
        (r.0, seq![src[i]] + r.1, r.2, r.3)
    }
}

/// A token that is one character, or two where the second is `second`.
pub open spec fn one_or_two(src: Seq<char>, i: int, second: char, two: Punct, one: Punct) -> (
    Option<KindModel>,
    int,
    Seq<LexerError>,
) {
    if char_is(src, i + 1, second) {
        (Some(KindModel::Punctuation(two)), i + 2, seq![])
    } else {
        (Some(KindModel::Punctuation(one)), i + 1, seq![])
    }
}

/// A token of one character.
pub open spec fn single(k: KindModel, i: int) -> (Option<KindModel>, int, Seq<LexerError>) {
    (Some(k), i + 1, seq![])
}

/// What the lexer does at character `i`: the token it makes there, if any
/// (whitespace, comments and unexpected characters make none), the index at
/// which it goes on, and what it reports.
pub open spec fn lex_step(src: Seq<char>, i: int) -> (Option<KindModel>, int, Seq<LexerError>) {
    let c = src[i];
    let j = i + 1;
    if c == '(' {
        single(KindModel::OpeningDelimiter(Delimiter::Paren), i)
    } else if c == ')' {
        single(KindModel::ClosingDelimiter(Delimiter::Paren), i)
    } else if c == '[' {
        single(KindModel::OpeningDelimiter(Delimiter::Bracket), i)
    } else if c == ']' {
        single(KindModel::ClosingDelimiter(Delimiter::Bracket), i)
    } else if c == '{' {
        single(KindModel::OpeningDelimiter(Delimiter::Brace), i)
    } else if c == '}' {
        single(KindModel::ClosingDelimiter(Delimiter::Brace), i)
    } else if c == '+' {
        one_or_two(src, i, '=', Punct::PlusEq, Punct::Plus)
    } else if c == '-' {
        if char_is(src, j, '=') {
            (Some(KindModel::Punctuation(Punct::MinusEq)), j + 1, seq![])
        } else {
            one_or_two(src, i, '>', Punct::Arrow, Punct::Minus)
        }
    } else if c == '*' {
        one_or_two(src, i, '=', Punct::StarEq, Punct::Star)
    } else if c == '/' {
        if char_is(src, j, '=') {
            (Some(KindModel::Punctuation(Punct::SlashEq)), j + 1, seq![])
        } else if char_is(src, j, '/') {
            (None, run_end(src, j + 1, CharClass::NotNewline), seq![])
        } else if char_is(src, j, '*') {
            let b = block_comment_end(src, j + 1, 1);
            (
                None,
                b.0,
                if b.1 {
                    seq![LexerError::UnterminatedComment { span: Span { offset: byte_at(src, i) as usize, len: 1 } }]
                } else {
                    seq![]
                },
            )
        } else {
            (Some(KindModel::Punctuation(Punct::Slash)), j, seq![])
        }
    } else if c == '%' {
        one_or_two(src, i, '=', Punct::PercentEq, Punct::Percent)
    } else if c == '&' {
        one_or_two(src, i, '&', Punct::And, Punct::Ampersand)
    } else if c == '=' {
        if char_is(src, j, '=') {
            (Some(KindModel::Punctuation(Punct::EqEq)), j + 1, seq![])
        } else {
            one_or_two(src, i, '>', Punct::FatArrow, Punct::Eq)
        }
    } else if c == '!' {
        one_or_two(src, i, '=', Punct::NotEq, Punct::Bang)
    } else if c == '<' {
        one_or_two(src, i, '=', Punct::LessEq, Punct::Less)
    } else if c == '>' {
        one_or_two(src, i, '=', Punct::GreaterEq, Punct::Greater)
    } else if c == '.' {
        single(KindModel::Punctuation(Punct::Dot), i)
    } else if c == ',' {
        single(KindModel::Punctuation(Punct::Comma), i)
    } else if c == ';' {
        single(KindModel::Punctuation(Punct::Semicolon), i)
    } else if c == '?' {
        single(KindModel::Punctuation(Punct::Question), i)
    } else if c == '_' && !(j < src.len() && spec_is_ident_continue(src[j])) {
        single(KindModel::Punctuation(Punct::Underscore), i)
    } else if c == '|' {
        one_or_two(src, i, '|', Punct::Or, Punct::Pipe)
    } else if c == ':' {
        one_or_two(src, i, ':', Punct::ColonColon, Punct::Colon)
    } else if c == '"' {
        let r = string_rest(src, j);
        (
            Some(KindModel::Str(r.1)),
            r.0,
            if r.3 {
                r.2
            } else {
                r.2.push(LexerError::UnterminatedString { span: Span { offset: byte_at(src, i) as usize, len: 0 } })
            },
        )
    } else if spec_is_ascii_digit(c) {
        let n = number_token(src, j);
        (Some(n.0), n.1, seq![])
    } else if spec_is_whitespace(c) {
        (None, run_end(src, j, CharClass::Whitespace), seq![])
    } else if spec_is_ident_start(c) {
        let e = run_end(src, j, CharClass::IdentContinue);
        let text = src.subrange(i, e);
        (
            Some(
                match spec_keyword(text) {
                    Some(k) => KindModel::Keyword(k),
                    None => KindModel::Ident(text),
                },
            ),
            e,
            seq![],
        )
    } else {
        (
            None,
            j,
            seq![LexerError::UnexpectedCharacter { span: Span { offset: byte_at(src, i) as usize, len: 0 }, character: c }],
        )
    }
}

/// A run ends between where it starts and the end of the text.
pub proof fn lemma_run_end_bounds(src: Seq<char>, i: int, cl: CharClass)
    requires
        0 <= i <= src.len(),
    ensures
        i <= run_end(src, i, cl) <= src.len(),
        forall|k: int| i <= k < run_end(src, i, cl) ==> in_class(cl, #[trigger] src[k]),
        run_end(src, i, cl) == src.len() || !in_class(cl, src[run_end(src, i, cl)]),
    decreases src.len() - i,
{
    if i < src.len() && in_class(cl, src[i]) {
        lemma_run_end_bounds(src, i + 1, cl);
    }
}

pub proof fn lemma_block_comment_end_bounds(src: Seq<char>, i: int, depth: nat)
    requires
        0 <= i <= src.len(),
    ensures
        i <= block_comment_end(src, i, depth).0 <= src.len(),
        block_comment_end(src, i, depth).1 ==> block_comment_end(src, i, depth).0 == src.len(),
    decreases src.len() - i,
{
    if depth == 0 || !(0 <= i < src.len()) {
    } else if src[i] == '/' && char_is(src, i + 1, '*') {
        lemma_block_comment_end_bounds(src, i + 2, depth + 1);
    } else if src[i] == '*' && char_is(src, i + 1, '/') {
        lemma_block_comment_end_bounds(src, i + 2, (depth - 1) as nat);
    } else {
        lemma_block_comment_end_bounds(src, i + 1, depth);
    }
}

pub proof fn lemma_number_rest_bounds(src: Seq<char>, i: int, has_dot: bool)
    requires
        0 <= i <= src.len(),
    ensures
        i <= number_rest(src, i, has_dot).0 <= src.len(),
    decreases src.len() - i,
{
    if 0 <= i < src.len() {
        let c = src[i];
        if c == '_' {
            lemma_number_rest_bounds(src, i + 1, has_dot);
        } else if spec_is_ascii_digit(c) {
            lemma_number_rest_bounds(src, i + 1, has_dot);
        } else if c == '.' && !has_dot && 0 <= i + 1 < src.len() && spec_is_ascii_digit(src[i + 1]) {
            lemma_number_rest_bounds(src, i + 1, true);
        }
    }
}

pub proof fn lemma_string_rest_bounds(src: Seq<char>, i: int)
    requires
        0 <= i <= src.len(),
    ensures
        i <= string_rest(src, i).0 <= src.len(),
        !string_rest(src, i).3 ==> string_rest(src, i).0 == src.len(),
    decreases src.len() - i,
{
    if !(0 <= i < src.len()) {
    } else if src[i] == '"' {
    } else if src[i] == '\\' {
        if i + 1 < src.len() {
            lemma_string_rest_bounds(src, i + 2);
        } else {
            lemma_string_rest_bounds(src, i + 1);
        }
    } else {
        lemma_string_rest_bounds(src, i + 1);
    }
}

/// Each step of the lexer moves forward, and stays within the text.
pub proof fn lemma_lex_step_advances(src: Seq<char>, i: int)
    requires
        0 <= i < src.len(),
    ensures
        i < lex_step(src, i).1 <= src.len(),
{
    let j = i + 1;
    lemma_run_end_bounds(src, j, CharClass::Whitespace);
    lemma_run_end_bounds(src, j, CharClass::IdentContinue);
    lemma_string_rest_bounds(src, j);
    lemma_number_rest_bounds(src, j, false);
    let e = number_rest(src, j, false).0;
    if 0 <= e < src.len() {
        lemma_run_end_bounds(src, e + 1, CharClass::IdentContinue);
    }
    if j < src.len() {
        lemma_run_end_bounds(src, j + 1, CharClass::NotNewline);
        lemma_block_comment_end_bounds(src, j + 1, 1);
    }
}

/// What the lexer makes of `src` from character `i` on: the tokens with
/// their spans, closed by an empty end-of-file token at the last byte, and
/// the errors it reports, in order.
pub open spec fn lex_from(src: Seq<char>, i: int) -> (Seq<(KindModel, Span)>, Seq<LexerError>)
    decreases src.len() - i,
{
    if 0 <= i < src.len() {
        let s = lex_step(src, i);
        if i < s.1 <= src.len() {
            let rest = lex_from(src, s.1);
            (
                match s.0 {
                    Some(k) => seq![(k, span_of(src, i, s.1))] + rest.0,
                    None => rest.0,
                },
                s.2 + rest.1,
            )
        } else {
            (seq![], seq![])
        }
    } else {
        (seq![(KindModel::EOF, Span { offset: byte_at(src, src.len() as int) as usize, len: 0 })], seq![])
    }
}

/// One step of `lex_from`: the token of the step at `i`, if any, then the
/// rest; the errors of the step, then the rest's.
pub proof fn lemma_lex_from_step(src: Seq<char>, i: int)
    requires
        0 <= i < src.len(),
    ensures
        ({
            let s = lex_step(src, i);
            let rest = lex_from(src, s.1);
            &&& i < s.1 <= src.len()
            &&& lex_from(src, i).0 == match s.0 {
                Some(k) => seq![(k, span_of(src, i, s.1))] + rest.0,
                None => rest.0,
            }
            &&& lex_from(src, i).1 == s.2 + rest.1
        }),
{
    lemma_lex_step_advances(src, i);
}

} // verus!
