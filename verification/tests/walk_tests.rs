use atmos::error::CompilerError;
use atmos::lexer::lexer::Lexer;
use atmos::ast_lowerer::hir::Item as HirItem;
use atmos::parser::ast::{BinOp, Crate, Expr, Ident, Item, Pattern, Stmt};
use atmos::resolver::modules::ModuleId;
use atmos::parser::error::ParserError;
use atmos::parser::parser::Parser;
use atmos::resolver::error::ResolverError;
use atmos::resolver::resolver::Resolver;
use atmos::public::ast::AstCrate;
use atmos::{compile_source, OutputType, Session};

fn parse(src: &str) -> (Crate, Vec<ParserError>) {
    let mut lexer = Lexer::new(src.chars().collect());
    let tokens = lexer.tokenize();
    assert!(lexer.errors().is_empty());
    let mut parser = Parser::new(tokens);
    let krate = parser.parse_crate();
    let errors = parser.errors().clone();
    (krate, errors)
}

fn compile_errors(src: &str) -> Vec<CompilerError> {
    let mut session = Session::new("t.at".to_string(), src.to_string(), vec![]);
    let _ = compile_source(&mut session);
    session.errors().clone()
}

fn self_outside_impl_count(errors: &[CompilerError]) -> usize {
    errors
        .iter()
        .filter(|e| matches!(e, CompilerError::ResolverError(ResolverError::SelfOutsideImpl { .. })))
        .count()
}

#[test]
fn self_path_in_a_plain_function_is_reported() {
    let errors = compile_errors("fn main() { Self::make(); let x: Self; }");
    assert_eq!(self_outside_impl_count(&errors), 2);
}

#[test]
fn self_path_in_an_impl_is_not_reported() {
    let errors = compile_errors("struct S {} impl S { fn f() { Self::g(); } fn g() {} }");
    assert_eq!(self_outside_impl_count(&errors), 0);
}

#[test]
fn let_with_a_wildcard_and_no_value_parses() {
    let (krate, errors) = parse("fn main() { let _; }");
    assert!(errors.is_empty());
    match &krate.items[0].node {
        Item::Fn(f) => match &f.body.node.stmts[0].node {
            Stmt::Let(l) => {
                assert!(matches!(l.pat.node, Pattern::Wildcard));
                assert!(l.type_annotation.is_none());
                assert!(l.expr.is_none());
            },
            _ => panic!("expected a let statement"),
        },
        _ => panic!("expected a function"),
    }
}

#[test]
fn associated_type_without_value_parses() {
    let (_, errors) = parse("trait T { type A; }");
    assert!(errors.is_empty());
}

#[test]
fn match_arm_with_a_lone_name_parses() {
    let (_, errors) = parse("fn main() { match x { _ => y } }");
    assert!(errors.is_empty());
}

#[test]
fn blocks_and_modules_open_modules() {
    let (krate, errors) = parse("mod m {} fn main() { { } }");
    assert!(errors.is_empty());
    let mut resolver = Resolver::new();
    let _ = resolver.resolve(&krate);
    // The module, the function's body and the block inside it.
    assert_eq!(resolver.modules.len(), 3);
}

#[test]
fn empty_source_parses_to_an_empty_crate() {
    let (krate, errors) = parse("");
    assert!(krate.items.is_empty());
    assert!(errors.is_empty());
}

#[test]
fn stray_name_is_no_item() {
    let (krate, errors) = parse("x");
    assert!(krate.items.is_empty());
    assert_eq!(errors.len(), 1);
    assert!(matches!(errors[0], ParserError::ExpectedItem { .. }));
}

#[test]
fn empty_source_still_gives_a_syntax_tree() {
    let mut session = Session::new("t.at".to_string(), "".to_string(), vec![OutputType::Ast]);
    let out = compile_source(&mut session);
    assert!(out.ast.expect("syntax tree").items.is_empty());
    assert!(session.errors().is_empty());
}

fn stmt_exprs(krate: &Crate) -> Vec<&Expr> {
    match &krate.items[0].node {
        Item::Fn(f) => f
            .body
            .node
            .stmts
            .iter()
            .map(|s| match &s.node {
                Stmt::Semi(e) | Stmt::Expr(e) => &e.node,
                _ => panic!("expected an expression statement"),
            })
            .collect(),
        _ => panic!("expected a function"),
    }
}

#[test]
fn parentheses_make_a_tuple_unless_one_element_without_comma() {
    let (krate, errors) = parse("fn main() { (a); (a,); (); }");
    assert!(errors.is_empty());
    let es = stmt_exprs(&krate);
    assert!(matches!(es[0], Expr::Paren(_)));
    match es[1] {
        Expr::Tuple(t) => assert_eq!(t.expressions.len(), 1),
        _ => panic!("expected a tuple"),
    }
    match es[2] {
        Expr::Tuple(t) => assert!(t.expressions.is_empty()),
        _ => panic!("expected a tuple"),
    }
}

#[test]
fn unclosed_list_is_reported_once() {
    let (_, errors) = parse("fn main() { f(a, b");
    let unclosed = errors.iter().filter(|e| matches!(e, ParserError::UnclosedDelimiter { .. })).count();
    assert!(unclosed >= 1);
}

#[test]
fn every_item_gets_a_definition() {
    let (krate, errors) = parse("fn f() {} struct S {} mod m { fn g() {} }");
    assert!(errors.is_empty());
    let mut resolver = Resolver::new();
    let defs = resolver.resolve(&krate);
    for item in &krate.items {
        assert!(defs.get_def_from_ast(item.ast_id).is_some());
    }
}

#[test]
fn flat_syntax_table_holds_every_node() {
    let (krate, errors) = parse("fn main() { a - b; }");
    assert!(errors.is_empty());
    let table = AstCrate::from_krate(&krate);
    let root = &table.nodes[&table.root_items[0].0];
    assert_eq!(root.kind, "fn");
    for node in table.nodes.values() {
        for child in &node.children {
            assert!(table.nodes.contains_key(&child.0));
        }
    }
}

#[test]
fn unresolved_name_is_reported_once() {
    let errors = compile_errors("fn main() { f(); }");
    let unresolved: Vec<_> = errors
        .iter()
        .filter_map(|e| match e {
            CompilerError::ResolverError(ResolverError::UnresolvedPath { path, .. }) => Some(path.clone()),
            _ => None,
        })
        .collect();
    assert_eq!(unresolved, vec!["f".to_string()]);
}

fn single_name(e: &Expr) -> Option<String> {
    match e {
        Expr::Path(p) if p.path.node.segments.len() == 1 && p.path.node.segments[0].node.args.is_empty() => {
            Some(p.path.node.segments[0].node.ident.node.name.clone())
        },
        _ => None,
    }
}

#[test]
fn parenthesized_name_keeps_the_name() {
    let (krate, errors) = parse("fn main() { (a); (b,); }");
    assert!(errors.is_empty());
    let es = stmt_exprs(&krate);
    match es[0] {
        Expr::Paren(inner) => assert_eq!(single_name(&inner.node), Some("a".to_string())),
        _ => panic!("expected a parenthesized expression"),
    }
    match es[1] {
        Expr::Tuple(t) => assert_eq!(single_name(&t.expressions[0].node), Some("b".to_string())),
        _ => panic!("expected a tuple"),
    }
}

#[test]
fn names_of_top_level_items_are_bound_in_the_root() {
    let (krate, errors) = parse("struct S {} fn f() {} mod m {} const C: i32 = 1;");
    assert!(errors.is_empty());
    let mut resolver = Resolver::new();
    let _ = resolver.resolve(&krate);
    let root = resolver.module_arena.get(ModuleId(0));
    for name in ["S", "f", "m", "C"] {
        assert!(root.get(&Ident::new(name.to_string())).is_some(), "{} is not bound", name);
    }
    assert!(root.get(&Ident::new("g".to_string())).is_none());
}

#[test]
fn unresolvable_use_stays_queued_and_is_reported() {
    let (krate, errors) = parse("use nope::z;");
    assert!(errors.is_empty());
    let mut resolver = Resolver::new();
    let _ = resolver.resolve(&krate);
    assert_eq!(resolver.unresolved_imports.len(), 1);
    let import = resolver.module_arena.get_import(resolver.unresolved_imports[0]);
    let names: Vec<&str> = import.path.iter().map(|i| i.node.name.as_str()).collect();
    assert_eq!(names, vec!["nope", "z"]);
    assert_eq!(import.parent_module, ModuleId(0));
    let paths: Vec<String> = resolver
        .errors
        .iter()
        .filter_map(|e| match e {
            ResolverError::UnresolvedPath { path, .. } => Some(path.clone()),
            _ => None,
        })
        .collect();
    assert!(!paths.is_empty());
    assert!(paths.iter().all(|p| p == "nope::z"));
}

#[test]
fn every_plain_name_in_an_expression_is_resolved_or_reported() {
    let (krate, errors) = parse("fn main() { let x = 1; x; y; }");
    assert!(errors.is_empty());
    let mut resolver = Resolver::new();
    let _ = resolver.resolve(&krate);
    let es: Vec<&Expr> = match &krate.items[0].node {
        Item::Fn(f) => f
            .body
            .node
            .stmts
            .iter()
            .filter_map(|s| match &s.node {
                Stmt::Semi(e) | Stmt::Expr(e) => Some(&e.node),
                _ => None,
            })
            .collect(),
        _ => panic!("expected a function"),
    };
    let x = match es[0] {
        Expr::Path(p) => p.path.ast_id,
        _ => panic!("expected a path"),
    };
    let y = match es[1] {
        Expr::Path(p) => p.path.ast_id,
        _ => panic!("expected a path"),
    };
    assert!(resolver.defs.get_resolution(x).is_some());
    assert!(resolver.defs.get_resolution(y).is_none());
    let unresolved: Vec<String> = resolver
        .errors
        .iter()
        .filter_map(|e| match e {
            ResolverError::UnresolvedPath { path, .. } => Some(path.clone()),
            _ => None,
        })
        .collect();
    assert_eq!(unresolved, vec!["y".to_string()]);
}

#[test]
fn use_inside_a_module_is_skipped_when_lowering() {
    let mut session =
        Session::new("t.at".to_string(), "mod m { use m; fn f() {} }".to_string(), vec![OutputType::Hir]);
    let out = compile_source(&mut session);
    let hir = out.hir.expect("lowered tree");
    assert_eq!(hir.items.len(), 1);
    match &hir.items[0].node {
        HirItem::Mod(m) => {
            assert_eq!(m.items.len(), 1);
            assert!(matches!(m.items[0].node, HirItem::Fn(_)));
        },
        _ => panic!("expected a module"),
    }
}

/// The expression written back with parentheses around each operation.
fn shape(e: &Expr) -> String {
    match e {
        Expr::Binary(b) => {
            let op = match b.operator.node {
                BinOp::Add => "+",
                BinOp::Sub => "-",
                BinOp::Mul => "*",
                BinOp::Div => "/",
                BinOp::Rem => "%",
                BinOp::And => "&&",
                BinOp::Or => "||",
                BinOp::EqEq => "==",
                BinOp::Less => "<",
                BinOp::LessEq => "<=",
                BinOp::Greater => ">",
                BinOp::GreaterEq => ">=",
                BinOp::NotEq => "!=",
            };
            format!("({} {} {})", shape(&b.left.node), op, shape(&b.right.node))
        },
        Expr::Assign(a) => format!("({} = {})", shape(&a.target.node), shape(&a.value.node)),
        _ => single_name(e).unwrap_or_else(|| "?".to_string()),
    }
}

#[test]
fn operators_group_by_precedence() {
    let (krate, errors) = parse("fn main() { a - b; a - b - c; a + b * c; a * b + c; a || b && c; a = b = c; }");
    assert!(errors.is_empty());
    let shapes: Vec<String> = stmt_exprs(&krate).into_iter().map(shape).collect();
    assert_eq!(
        shapes,
        vec![
            "(a - b)".to_string(),
            "((a - b) - c)".to_string(),
            "(a + (b * c))".to_string(),
            "((a * b) + c)".to_string(),
            "(a || (b && c))".to_string(),
            "(a = (b = c))".to_string(),
        ]
    );
}

#[test]
fn lists_of_names_keep_their_names_and_trailing_comma() {
    let (krate, errors) = parse("fn main() { (a, b); (c, d,); }");
    assert!(errors.is_empty());
    let es = stmt_exprs(&krate);
    for (e, names) in es.iter().zip([["a", "b"], ["c", "d"]]) {
        match e {
            Expr::Tuple(t) => {
                let got: Vec<Option<String>> = t.expressions.iter().map(|x| single_name(&x.node)).collect();
                assert_eq!(got, vec![Some(names[0].to_string()), Some(names[1].to_string())]);
            },
            _ => panic!("expected a tuple"),
        }
    }
}

fn duplicates(errors: &[CompilerError]) -> Vec<String> {
    errors
        .iter()
        .filter_map(|e| match e {
            CompilerError::ResolverError(ResolverError::DuplicateDefinition { name, .. }) => Some(name.clone()),
            _ => None,
        })
        .collect()
}

#[test]
fn name_bound_twice_in_one_tuple_pattern_is_reported() {
    let errors = compile_errors("fn main() { let (a, a) = (1, 2); }");
    assert_eq!(duplicates(&errors), vec!["a".to_string()]);
    let errors = compile_errors("fn main() { let (a, b) = (1, 2); }");
    assert!(duplicates(&errors).is_empty());
}

#[test]
fn items_take_the_name_after_their_keyword() {
    let (krate, errors) = parse("fn f() {} struct S {} enum E { A } mod m {} const C: i32 = 1; type T = i32;");
    assert!(errors.is_empty());
    let names: Vec<String> = krate
        .items
        .iter()
        .map(|i| match &i.node {
            Item::Fn(f) => f.sig.node.ident.node.name.clone(),
            Item::Struct(x) => x.ident.node.name.clone(),
            Item::Enum(x) => x.ident.node.name.clone(),
            Item::Mod(x) => x.ident.node.name.clone(),
            Item::Const(x) => x.ident.node.name.clone(),
            Item::TyAlias(x) => x.ident.node.name.clone(),
            _ => panic!("unexpected item"),
        })
        .collect();
    assert_eq!(names, vec!["f", "S", "E", "m", "C", "T"]);
}

#[test]
fn imports_resolve_in_rounds_and_bind_their_last_name() {
    let (krate, errors) = parse("mod a { mod b { fn x() {} } } use b::x; use a::b;");
    assert!(errors.is_empty());
    let mut resolver = Resolver::new();
    let _ = resolver.resolve(&krate);
    assert!(resolver.unresolved_imports.is_empty());
    let root = resolver.module_arena.get(ModuleId(0));
    assert!(root.get(&Ident::new("b".to_string())).is_some());
    assert!(root.get(&Ident::new("x".to_string())).is_some());
}
