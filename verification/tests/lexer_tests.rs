use atmos::lexer::error::LexerError;
use atmos::lexer::lexer::Lexer;
use atmos::lexer::token::Token;
use atmos::lexer::token_kind::{Delimiter, Kw, Literal, Punct, TokenKind};
use atmos::span::Span;

fn lex(src: &str) -> (Vec<Token>, Vec<LexerError>) {
    let mut lexer = Lexer::new(src.chars().collect());
    let tokens = lexer.tokenize();
    let errors = lexer.errors().clone();
    (tokens, errors)
}

fn kinds(src: &str) -> Vec<TokenKind> {
    lex(src).0.into_iter().map(|t| t.kind).collect()
}

#[test]
fn lexes_keyword_and_eof() {
    let (tokens, errors) = lex("fn");
    assert!(errors.is_empty());
    assert_eq!(tokens.len(), 2);
    assert_eq!(tokens[0].kind, TokenKind::Keyword(Kw::Fn));
    assert_eq!(tokens[1].kind, TokenKind::EOF);
}

#[test]
fn empty_source_is_just_eof() {
    let (tokens, errors) = lex("");
    assert!(errors.is_empty());
    assert_eq!(tokens.len(), 1);
    assert_eq!(tokens[0].kind, TokenKind::EOF);
    assert_eq!(tokens[0].span, Span::new(0, 0));
}

#[test]
fn spans_are_byte_ranges() {
    let (tokens, _) = lex("fn main() {}");
    let spans: Vec<(usize, usize)> = tokens.iter().map(|t| (t.span.offset, t.span.len)).collect();
    assert_eq!(spans, vec![(0, 2), (3, 4), (7, 1), (8, 1), (10, 1), (11, 1), (12, 0)]);
    assert_eq!(tokens[1].kind, TokenKind::Ident("main".to_string()));
    assert_eq!(tokens[2].kind, TokenKind::OpeningDelimiter(Delimiter::Paren));
    assert_eq!(tokens[5].kind, TokenKind::ClosingDelimiter(Delimiter::Brace));
}

#[test]
fn spans_count_bytes_of_multibyte_characters() {
    let (tokens, _) = lex("\"é\" x");
    assert_eq!(tokens[0].span, Span::new(0, 4));
    assert_eq!(tokens[1].span, Span::new(5, 1));
    assert_eq!(tokens[0].kind, TokenKind::Literal(Literal::Str("é".to_string())));
}

#[test]
fn two_character_punctuation() {
    assert_eq!(
        kinds("-> => == != <= >= :: && || += -= *= /= %="),
        vec![
            TokenKind::Punctuation(Punct::Arrow),
            TokenKind::Punctuation(Punct::FatArrow),
            TokenKind::Punctuation(Punct::EqEq),
            TokenKind::Punctuation(Punct::NotEq),
            TokenKind::Punctuation(Punct::LessEq),
            TokenKind::Punctuation(Punct::GreaterEq),
            TokenKind::Punctuation(Punct::ColonColon),
            TokenKind::Punctuation(Punct::And),
            TokenKind::Punctuation(Punct::Or),
            TokenKind::Punctuation(Punct::PlusEq),
            TokenKind::Punctuation(Punct::MinusEq),
            TokenKind::Punctuation(Punct::StarEq),
            TokenKind::Punctuation(Punct::SlashEq),
            TokenKind::Punctuation(Punct::PercentEq),
            TokenKind::EOF,
        ]
    );
}

#[test]
fn underscore_alone_is_punctuation() {
    assert_eq!(
        kinds("_ _x"),
        vec![TokenKind::Punctuation(Punct::Underscore), TokenKind::Ident("_x".to_string()), TokenKind::EOF]
    );
}

#[test]
fn numbers_with_suffixes_and_separators() {
    assert_eq!(
        kinds("1_000 42u32 3.14 2.5f64 7.x"),
        vec![
            TokenKind::Literal(Literal::Integer { value: "1000".to_string(), suffix: None }),
            TokenKind::Literal(Literal::Integer { value: "42".to_string(), suffix: Some("u32".to_string()) }),
            TokenKind::Literal(Literal::Float { value: "3.14".to_string(), suffix: None }),
            TokenKind::Literal(Literal::Float { value: "2.5".to_string(), suffix: Some("f64".to_string()) }),
            TokenKind::Literal(Literal::Integer { value: "7".to_string(), suffix: None }),
            TokenKind::Punctuation(Punct::Dot),
            TokenKind::Ident("x".to_string()),
            TokenKind::EOF,
        ]
    );
}

#[test]
fn string_escapes() {
    assert_eq!(
        kinds("\"a\\n\\t\\\\\\\"b\""),
        vec![TokenKind::Literal(Literal::Str("a\n\t\\\"b".to_string())), TokenKind::EOF]
    );
}

#[test]
fn comments_are_skipped() {
    assert_eq!(
        kinds("a // line\n/* block\n */ b"),
        vec![TokenKind::Ident("a".to_string()), TokenKind::Ident("b".to_string()), TokenKind::EOF]
    );
}

#[test]
fn unterminated_string_is_reported() {
    let (tokens, errors) = lex("\"abc");
    assert_eq!(errors, vec![LexerError::UnterminatedString { span: Span::new(0, 0) }]);
    assert_eq!(tokens[0].kind, TokenKind::Literal(Literal::Str("abc".to_string())));
}

#[test]
fn invalid_escape_is_reported() {
    let (_, errors) = lex("\"a\\qb\"");
    assert_eq!(errors, vec![LexerError::InvalidEscapeCharacter { span: Span::new(3, 0), character: 'q' }]);
}

#[test]
fn unexpected_character_is_reported() {
    let (tokens, errors) = lex("a # b");
    assert_eq!(errors, vec![LexerError::UnexpectedCharacter { span: Span::new(2, 0), character: '#' }]);
    assert_eq!(tokens.len(), 3);
}

#[test]
fn unterminated_comment_is_reported() {
    let (tokens, errors) = lex("x /* never closed");
    assert_eq!(errors, vec![LexerError::UnterminatedComment { span: Span::new(2, 1) }]);
    assert_eq!(tokens.len(), 2);
}

#[test]
fn keywords_and_identifiers() {
    assert_eq!(
        kinds("let mut x = true; struct S"),
        vec![
            TokenKind::Keyword(Kw::Let),
            TokenKind::Keyword(Kw::Mut),
            TokenKind::Ident("x".to_string()),
            TokenKind::Punctuation(Punct::Eq),
            TokenKind::Keyword(Kw::True),
            TokenKind::Punctuation(Punct::Semicolon),
            TokenKind::Keyword(Kw::Struct),
            TokenKind::Ident("S".to_string()),
            TokenKind::EOF,
        ]
    );
}

#[test]
fn token_kinds_classify_operators() {
    assert!(TokenKind::Punctuation(Punct::Eq).is_right_associative());
    assert!(!TokenKind::Punctuation(Punct::Plus).is_right_associative());
    assert!(TokenKind::Punctuation(Punct::Plus).is_infix_op());
    assert!(!TokenKind::Punctuation(Punct::Bang).is_infix_op());
    let t = Token::new(TokenKind::Keyword(Kw::Struct), Span::new(0, 6));
    assert!(t.begins_item());
    assert!(t.can_begin_expr());
    let t = Token::new(TokenKind::Punctuation(Punct::Comma), Span::new(0, 1));
    assert!(!t.begins_item());
    assert!(!t.can_begin_expr());
}

#[test]
fn span_to_joins_spans() {
    let a = Span::new(3, 2);
    let b = Span::new(10, 4);
    assert_eq!(a.to(b), Span::new(3, 11));
}

#[test]
fn joined_span_ends_after_the_second_span() {
    let a = Span::new(2, 2);
    let b = Span::new(10, 1);
    let s = a.to(b);
    assert_eq!(s, Span::new(2, 9));
    assert_eq!(s.offset + s.len, b.offset + b.len);
}
