use atmos::compile_source;
use atmos::error::CompilerError;
use atmos::public::ast::{AstCrate, AstId};
use atmos::public::hir::HirCrate;
use atmos::resolver::defs::DefKind;
use atmos::resolver::error::ResolverError;
use atmos::session::session::{Output, OutputType, Session};

fn compile(src: &str, flags: Vec<OutputType>) -> (Output, Vec<CompilerError>) {
    let mut session = Session::new("test.at".to_string(), src.to_string(), flags);
    let output = compile_source(&mut session);
    let errors = session.errors().clone();
    (output, errors)
}

fn resolver_errors(errors: &[CompilerError]) -> Vec<ResolverError> {
    errors
        .iter()
        .filter_map(|e| match e {
            CompilerError::ResolverError(r) => Some(r.clone()),
            _ => None,
        })
        .collect()
}

#[test]
fn session_keeps_its_name_source_and_flags() {
    let session = Session::new("a.at".to_string(), "fn f() {}".to_string(), vec![OutputType::Ast]);
    assert_eq!(session.get_name(), "a.at");
    assert_eq!(session.get_source(), "fn f() {}");
    assert!(session.has_flag(OutputType::Ast));
    assert!(!session.has_flag(OutputType::Hir));
    assert_eq!(session.error_count(), 0);
}

#[test]
fn outputs_follow_the_flags() {
    let (out, errors) = compile("fn main() {}", vec![OutputType::Tokens]);
    assert!(errors.is_empty());
    assert!(out.tokens.is_some());
    assert!(out.ast.is_none());
    assert!(out.hir.is_none());
    let (out, _) = compile("fn main() {}", vec![OutputType::Ast, OutputType::Hir]);
    assert!(out.tokens.is_none());
    assert!(out.ast.is_some());
    assert!(out.hir.is_some());
}

#[test]
fn empty_source_gives_an_empty_tree() {
    let (out, errors) = compile("", vec![OutputType::Tokens, OutputType::Ast]);
    assert!(errors.is_empty());
    assert_eq!(out.tokens.unwrap().len(), 1);
    assert!(out.ast.unwrap().items.is_empty());
}

#[test]
fn definitions_are_listed_with_their_kinds() {
    let (out, errors) = compile("struct S { x: i32 } fn main() {}", vec![]);
    assert!(errors.is_empty(), "{:?}", errors);
    let kinds: Vec<DefKind> = out.def_map.values().copied().collect();
    assert!(kinds.contains(&DefKind::Struct));
    assert!(kinds.contains(&DefKind::StructField));
    assert!(kinds.contains(&DefKind::Function));
    assert_eq!(out.ast_to_def.len(), out.def_map.len());
}

#[test]
fn imports_of_existing_items_resolve() {
    let (_, errors) = compile("mod m { fn g() {} } use m::g; fn main() { g(); }", vec![]);
    assert!(resolver_errors(&errors).is_empty(), "{:?}", errors);
}

#[test]
fn import_of_a_missing_item_is_reported() {
    let (_, errors) = compile("mod m { } use m::nope; fn main() {}", vec![]);
    let errs = resolver_errors(&errors);
    // Reported once when imports are resolved, and once more when the
    // path of the `use` item is resolved with the other names.
    assert_eq!(errs.len(), 2, "{:?}", errs);
    assert!(errs.iter().all(|e| matches!(e, ResolverError::UnresolvedPath { path, .. } if path == "m::nope")));
}

#[test]
fn undefined_local_is_reported() {
    let (_, errors) = compile("fn main() { y; }", vec![]);
    let errs = resolver_errors(&errors);
    assert!(!errs.is_empty());
}

#[test]
fn locals_resolve_in_their_scope() {
    let (out, errors) = compile("fn main() { let x = 1; x; }", vec![]);
    assert!(resolver_errors(&errors).is_empty(), "{:?}", errors);
    assert!(!out.resolutions.is_empty());
}

#[test]
fn super_beyond_the_root_is_reported() {
    let (_, errors) = compile("use super::x; fn main() {}", vec![]);
    let errs = resolver_errors(&errors);
    assert!(errs.iter().any(|e| matches!(e, ResolverError::SuperBeyondRoot { .. })), "{:?}", errs);
}

#[test]
fn flat_syntax_tree_names_its_nodes() {
    let (out, errors) = compile("fn main() { 1 + 2 }", vec![OutputType::Ast]);
    assert!(errors.is_empty(), "{:?}", errors);
    let krate = out.ast.unwrap();
    let flat = AstCrate::from_krate(&krate);
    assert_eq!(flat.root_items.len(), 1);
    let root = &flat.nodes[&flat.root_items[0].0];
    assert_eq!(root.id, flat.root_items[0]);
    assert_eq!(root.kind, "fn");
    assert_eq!(root.label, "fn main");
    assert_eq!(root.children.len(), 2);
    let labels: Vec<&str> = flat.nodes.values().map(|n| n.label.as_str()).collect();
    assert!(labels.contains(&"Add"));
    assert!(labels.contains(&"1"));
    assert!(labels.contains(&"2"));
    for node in flat.nodes.values() {
        for child in &node.children {
            assert!(flat.nodes.contains_key(&child.0));
        }
    }
}

#[test]
fn flat_syntax_tree_keeps_ids() {
    let (out, _) = compile("struct P { x: i32 }", vec![OutputType::Ast]);
    let krate = out.ast.unwrap();
    let flat = AstCrate::from_krate(&krate);
    assert_eq!(flat.root_items, vec![AstId::from_ast_id(krate.items[0].ast_id)]);
    let root = &flat.nodes[&flat.root_items[0].0];
    assert_eq!(root.kind, "struct");
    assert_eq!(root.label, "struct P");
    let labels: Vec<&str> = flat.nodes.values().map(|n| n.label.as_str()).collect();
    assert!(labels.contains(&"i32"));
    assert!(labels.contains(&"x"));
}

#[test]
fn flat_lowered_tree_names_its_nodes() {
    let (out, errors) = compile("fn main() { let a = -3; a; }", vec![OutputType::Hir]);
    assert!(errors.is_empty(), "{:?}", errors);
    let hir = out.hir.unwrap();
    let flat = HirCrate::from_krate(&hir);
    assert_eq!(flat.root_items.len(), 1);
    let root = &flat.nodes[&flat.root_items[0].0];
    assert_eq!(root.kind, "fn");
    assert_eq!(root.label, "fn main");
    let kinds: Vec<&str> = flat.nodes.values().map(|n| n.kind.as_str()).collect();
    assert!(kinds.contains(&"let"));
    assert!(kinds.contains(&"unary"));
    let labels: Vec<&str> = flat.nodes.values().map(|n| n.label.as_str()).collect();
    assert!(labels.contains(&"Neg"));
    assert!(labels.contains(&"3"));
}
