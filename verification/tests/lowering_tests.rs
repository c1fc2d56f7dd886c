use atmos::ast_lowerer::hir::{BinOp, BlockExpr, Crate, Expr, HirNode, Item, Stmt};
use atmos::error::CompilerError;
use atmos::lexer::error::LexerError;
use atmos::lexer::lexer::Lexer;
use atmos::lexer::token_kind::TokenKind;
use atmos::resolver::error::ResolverError;
use atmos::{compile_source, OutputType, Session};

fn lower(src: &str) -> (Crate, Vec<CompilerError>) {
    let mut session = Session::new("test.at".to_string(), src.to_string(), vec![OutputType::Hir]);
    let out = compile_source(&mut session);
    (out.hir.expect("lowered tree"), session.errors().clone())
}

fn body_of(krate: &Crate) -> &HirNode<BlockExpr> {
    match &krate.items[0].node {
        Item::Fn(f) => &f.body,
        _ => panic!("expected a function"),
    }
}

#[test]
fn while_becomes_a_loop_around_an_if() {
    let (krate, errors) = lower("fn main() { let a = true; while a == false { a; } }");
    assert!(errors.is_empty());
    let body = body_of(&krate);
    assert_eq!(body.node.stmts.len(), 2);
    let while_stmt = &body.node.stmts[1];
    let lowered = match &while_stmt.node {
        Stmt::Expr(e) | Stmt::Semi(e) => e,
        _ => panic!("expected an expression statement"),
    };
    let loop_body = match &lowered.node {
        Expr::Loop(l) => &l.body,
        _ => panic!("expected a loop"),
    };
    assert_eq!(loop_body.span, lowered.span);
    assert_eq!(loop_body.node.stmts.len(), 1);
    let if_expr = match &loop_body.node.stmts[0].node {
        Stmt::Expr(e) => e,
        _ => panic!("expected the if"),
    };
    match &if_expr.node {
        Expr::If(i) => {
            assert!(matches!(i.condition.node, Expr::Binary(ref b) if b.op == BinOp::Eq));
            let else_branch = i.else_branch.as_ref().expect("else branch");
            assert_eq!(else_branch.node.stmts.len(), 1);
            assert!(matches!(else_branch.node.stmts[0].node, Stmt::Expr(ref e) if matches!(e.node, Expr::Break(None))));
        }
        _ => panic!("expected an if"),
    }
}

#[test]
fn compound_assignment_becomes_an_assignment_of_the_operation() {
    let (krate, errors) = lower("fn main() { let a = 1; a += 2; }");
    assert!(errors.is_empty());
    let body = body_of(&krate);
    let stmt = &body.node.stmts[1];
    let e = match &stmt.node {
        Stmt::Semi(e) | Stmt::Expr(e) => e,
        _ => panic!("expected an expression statement"),
    };
    match &e.node {
        Expr::Assign(a) => {
            assert!(matches!(a.lhs.node, Expr::Path(_)));
            match &a.rhs.node {
                Expr::Binary(b) => {
                    assert_eq!(b.op, BinOp::Add);
                    assert!(matches!(b.lhs.node, Expr::Path(_)));
                    assert!(matches!(b.rhs.node, Expr::Literal(_)));
                }
                _ => panic!("expected the operation"),
            }
        }
        _ => panic!("expected an assignment"),
    }
}

#[test]
fn parentheses_disappear() {
    let (krate, errors) = lower("fn main() { (1 + 2); }");
    assert!(errors.is_empty());
    let body = body_of(&krate);
    let e = match &body.node.stmts[0].node {
        Stmt::Semi(e) | Stmt::Expr(e) => e,
        _ => panic!("expected an expression statement"),
    };
    assert!(matches!(e.node, Expr::Binary(ref b) if b.op == BinOp::Add));
}

#[test]
fn use_items_are_left_out_of_the_lowered_crate() {
    let (krate, _) = lower("mod m { fn g() {} } use m::g; fn main() {}");
    assert_eq!(krate.items.len(), 2);
    assert!(matches!(krate.items[0].node, Item::Mod(_)));
    assert!(matches!(krate.items[1].node, Item::Fn(_)));
}

#[test]
fn nested_block_comments_are_skipped_whole() {
    let chars: Vec<char> = "/* a /* b */ c */ x".chars().collect();
    let mut lexer = Lexer::new(chars);
    let tokens = lexer.tokenize();
    assert!(lexer.errors().is_empty());
    assert_eq!(tokens.len(), 2);
    assert_eq!(tokens[0].kind, TokenKind::Ident("x".to_string()));
}

#[test]
fn lexer_errors_come_first_among_the_errors() {
    let mut session = Session::new("t.at".to_string(), "fn main() { # }".to_string(), vec![]);
    let _ = compile_source(&mut session);
    let errors = session.errors();
    assert!(!errors.is_empty());
    assert!(matches!(errors[0], CompilerError::LexerError(LexerError::UnexpectedCharacter { character: '#', .. })));
}

#[test]
fn self_cannot_be_bound_by_a_pattern() {
    let mut session = Session::new("t.at".to_string(), "fn main() { let Self = 1; }".to_string(), vec![]);
    let _ = compile_source(&mut session);
    assert!(session
        .errors()
        .iter()
        .any(|e| matches!(e, CompilerError::ResolverError(ResolverError::SelfAsBinding { .. }))));
}

#[test]
fn paths_from_the_crate_root_resolve() {
    let mut session = Session::new(
        "t.at".to_string(),
        "mod m { fn g() {} } fn main() { crate::m::g(); self::m::g(); }".to_string(),
        vec![],
    );
    let _ = compile_source(&mut session);
    assert!(session.errors().is_empty());
}
