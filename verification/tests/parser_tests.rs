use atmos::lexer::lexer::Lexer;
use atmos::lexer::token_kind::{Kw, TokenKind};
use atmos::parser::ast::{BinOp, Crate, Expr, Item, LiteralExpr, Stmt};
use atmos::parser::error::ParserError;
use atmos::parser::parser::Parser;

fn parse(src: &str) -> (Crate, Vec<ParserError>) {
    let mut lexer = Lexer::new(src.chars().collect());
    let tokens = lexer.tokenize();
    assert!(lexer.errors().is_empty());
    let mut parser = Parser::new(tokens);
    let krate = parser.parse_crate();
    let errors = parser.errors().clone();
    (krate, errors)
}

fn first_fn_body_expr(krate: &Crate) -> &Expr {
    match &krate.items[0].node {
        Item::Fn(f) => match &f.body.node.stmts[0].node {
            Stmt::Expr(e) => &e.node,
            Stmt::Semi(e) => &e.node,
            other => panic!("unexpected statement {:?}", other),
        },
        other => panic!("unexpected item {:?}", other),
    }
}

#[test]
fn parses_items_of_each_kind() {
    let (krate, errors) = parse(
        "fn main() {}\n\
         struct P { x: i32 }\n\
         enum E { A, B(i32) }\n\
         trait T { fn f(); }\n\
         mod m { fn g() {} }\n\
         impl P {}\n\
         const C: i32 = 1;\n\
         use m::g;\n\
         type A = P;",
    );
    assert!(errors.is_empty(), "{:?}", errors);
    assert_eq!(krate.items.len(), 9);
    assert!(matches!(krate.items[0].node, Item::Fn(_)));
    assert!(matches!(krate.items[1].node, Item::Struct(_)));
    assert!(matches!(krate.items[2].node, Item::Enum(_)));
    assert!(matches!(krate.items[3].node, Item::Trait(_)));
    assert!(matches!(krate.items[4].node, Item::Mod(_)));
    assert!(matches!(krate.items[5].node, Item::Impl(_)));
    assert!(matches!(krate.items[6].node, Item::Const(_)));
    assert!(matches!(krate.items[7].node, Item::Use(_)));
    assert!(matches!(krate.items[8].node, Item::TyAlias(_)));
}

#[test]
fn multiplication_binds_tighter_than_addition() {
    let (krate, errors) = parse("fn f() { a + b * c }");
    assert!(errors.is_empty(), "{:?}", errors);
    match first_fn_body_expr(&krate) {
        Expr::Binary(b) => {
            assert_eq!(b.operator.node, BinOp::Add);
            match &b.right.node {
                Expr::Binary(inner) => assert_eq!(inner.operator.node, BinOp::Mul),
                other => panic!("unexpected right operand {:?}", other),
            }
        }
        other => panic!("unexpected expression {:?}", other),
    }
}

#[test]
fn subtraction_is_left_associative() {
    let (krate, errors) = parse("fn f() { a - b - c }");
    assert!(errors.is_empty(), "{:?}", errors);
    match first_fn_body_expr(&krate) {
        Expr::Binary(b) => {
            assert_eq!(b.operator.node, BinOp::Sub);
            assert!(matches!(b.left.node, Expr::Binary(_)));
            assert!(matches!(b.right.node, Expr::Path(_)));
        }
        other => panic!("unexpected expression {:?}", other),
    }
}

#[test]
fn integer_literals_take_suffixes() {
    let (krate, errors) = parse("fn f() { 7u32 }");
    assert!(errors.is_empty(), "{:?}", errors);
    assert!(matches!(first_fn_body_expr(&krate), Expr::Literal(LiteralExpr::U32(7))));
    let (krate, errors) = parse("fn f() { 42 }");
    assert!(errors.is_empty(), "{:?}", errors);
    assert!(matches!(first_fn_body_expr(&krate), Expr::Literal(LiteralExpr::I32(42))));
}

#[test]
fn overflowing_literal_is_reported() {
    let (_, errors) = parse("fn f() { 99999999999 }");
    assert_eq!(errors.len(), 1);
    assert!(matches!(errors[0], ParserError::LiteralOverflow { .. }));
}

#[test]
fn unknown_suffix_is_reported() {
    let (_, errors) = parse("fn f() { 1q8 }");
    assert_eq!(errors.len(), 1);
    assert!(matches!(errors[0], ParserError::InvalidLiteralSuffix { .. }));
}

#[test]
fn stray_token_at_item_level_is_reported_and_skipped() {
    let (krate, errors) = parse("42 fn main() {}");
    assert!(!errors.is_empty());
    assert!(matches!(errors[0], ParserError::ExpectedItem { .. }));
    assert!(krate.items.iter().any(|i| matches!(i.node, Item::Fn(_))));
}

#[test]
fn missing_identifier_is_reported() {
    let (_, errors) = parse("fn () {}");
    assert!(!errors.is_empty());
    assert!(matches!(
        errors[0],
        ParserError::ExpectedIdentifier { found: TokenKind::OpeningDelimiter(_), .. }
    ));
}

#[test]
fn if_while_loop_and_match_parse() {
    let (krate, errors) = parse(
        "fn f() { if a { 1 } else { 2 }; while b { }; loop { break; }; match x { _ => 3 } }",
    );
    assert!(errors.is_empty(), "{:?}", errors);
    match &krate.items[0].node {
        Item::Fn(f) => {
            let stmts = &f.body.node.stmts;
            assert_eq!(stmts.len(), 4);
        }
        other => panic!("unexpected item {:?}", other),
    }
}

#[test]
fn crate_span_covers_the_source() {
    let (krate, errors) = parse("fn main() {}");
    assert!(errors.is_empty());
    assert_eq!(krate.span.offset, 0);
    assert_eq!(krate.span.len, 12);
}

#[test]
fn keyword_as_item_name_is_reported() {
    let (_, errors) = parse("struct fn {}");
    assert!(!errors.is_empty());
    assert!(matches!(
        errors[0],
        ParserError::ExpectedIdentifier { found: TokenKind::Keyword(Kw::Fn), .. }
    ));
}
