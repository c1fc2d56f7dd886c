use atmos::lexer::token::Token;
use atmos::span::Span;
use atmos::lexer::keywords::keyword;
use atmos::lexer::token_kind::{Delimiter, Kw, Literal, Punct, TokenKind};
use atmos::test_runner::{normalize, outputs_match, TestRunner};

#[test]
fn keywords_are_spelled_as_they_are_read() {
    let all = [
        Kw::Let, Kw::Fn, Kw::Return, Kw::If, Kw::Else, Kw::While, Kw::Loop, Kw::For, Kw::In, Kw::Break,
        Kw::Continue, Kw::Struct, Kw::Enum, Kw::Trait, Kw::Mod, Kw::Match, Kw::Impl, Kw::Pub, Kw::Mut,
        Kw::Type, Kw::As, Kw::True, Kw::False, Kw::Use, Kw::Where, Kw::Extern, Kw::Const, Kw::Unit,
    ];
    for k in all {
        let text: Vec<char> = k.text().chars().collect();
        assert_eq!(keyword(&text), Some(k));
    }
    assert_eq!(Kw::Fn.text(), "fn");
}

#[test]
fn tokens_are_written_as_in_source() {
    assert_eq!(TokenKind::Punctuation(Punct::ColonColon).text(), "::");
    assert_eq!(TokenKind::Punctuation(Punct::FatArrow).text(), "=>");
    assert_eq!(TokenKind::OpeningDelimiter(Delimiter::Brace).text(), "{");
    assert_eq!(TokenKind::ClosingDelimiter(Delimiter::Bracket).text(), "]");
    assert_eq!(TokenKind::Keyword(Kw::Impl).text(), "impl");
    assert_eq!(TokenKind::Ident("abc".to_string()).text(), "abc");
    assert_eq!(
        TokenKind::Literal(Literal::Integer { value: "12".to_string(), suffix: Some("u32".to_string()) }).text(),
        "12u32"
    );
    assert_eq!(TokenKind::Literal(Literal::Float { value: "1.5".to_string(), suffix: None }).text(), "1.5");
    assert_eq!(TokenKind::Literal(Literal::Str("hi".to_string())).text(), "\"hi\"");
    assert_eq!(TokenKind::EOF.text(), "EOF");
}

#[test]
fn output_is_normalized_before_comparison() {
    assert_eq!(normalize("a\r\nb  \n\n".to_string()), "a\nb");
    assert_eq!(normalize("".to_string()), "");
    assert_eq!(normalize(" \t\n".to_string()), "");
    assert!(outputs_match("x\r\ny\n".to_string(), "x\ny".to_string()));
    assert!(!outputs_match("x".to_string(), "y".to_string()));
}

#[test]
fn test_runner_starts_empty() {
    let runner = TestRunner::new(std::path::PathBuf::from("atmos"));
    assert!(runner.tests.is_empty());
    assert_eq!(runner.compiler_path, std::path::PathBuf::from("atmos"));
}

#[test]
fn tokens_show_their_place() {
    let t = Token::new(TokenKind::Keyword(Kw::Fn), Span::new(3, 2));
    assert_eq!(t.text(), "fn [offset: 3, length: 2]");
}

fn lex_kinds(text: &str) -> Vec<TokenKind> {
    let mut lexer = atmos::lexer::lexer::Lexer::new(text.chars().collect());
    let tokens = lexer.tokenize();
    assert!(lexer.errors().is_empty());
    tokens.into_iter().map(|t| t.kind).collect()
}

#[test]
fn token_texts_lex_back_to_their_tokens() {
    let puncts = [
        Punct::Plus, Punct::Minus, Punct::Star, Punct::Slash, Punct::Percent, Punct::Ampersand, Punct::And,
        Punct::PlusEq, Punct::MinusEq, Punct::StarEq, Punct::SlashEq, Punct::PercentEq, Punct::Bang, Punct::Eq,
        Punct::EqEq, Punct::NotEq, Punct::Less, Punct::LessEq, Punct::Greater, Punct::GreaterEq, Punct::Arrow,
        Punct::FatArrow, Punct::Dot, Punct::Semicolon, Punct::Comma, Punct::Question, Punct::Colon,
        Punct::ColonColon, Punct::Underscore, Punct::Pipe, Punct::Or,
    ];
    for p in puncts {
        assert_eq!(lex_kinds(&p.text()), vec![TokenKind::Punctuation(p), TokenKind::EOF]);
    }
    for d in [Delimiter::Paren, Delimiter::Bracket, Delimiter::Brace] {
        assert_eq!(lex_kinds(&d.opening_text()), vec![TokenKind::OpeningDelimiter(d), TokenKind::EOF]);
        assert_eq!(lex_kinds(&d.closing_text()), vec![TokenKind::ClosingDelimiter(d), TokenKind::EOF]);
    }
    for k in [Kw::Let, Kw::Continue, Kw::Unit, Kw::True, Kw::Extern] {
        assert_eq!(lex_kinds(&k.text()), vec![TokenKind::Keyword(k), TokenKind::EOF]);
    }
}
