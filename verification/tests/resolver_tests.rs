use atmos::parser::ast::{AstId, Ident};
use atmos::resolver::defs::{DefId, DefKind, DefinitionMap, Definition, PartialRes};
use atmos::resolver::modules::{Binding, Module, ModuleId, ModuleKind};
use atmos::resolver::names::NameTable;
use atmos::resolver::resolutions::ResolutionMap;
use atmos::resolver::ribs::{PrimTy, Res, Rib};
use atmos::resolver::scopes::Scope;

#[test]
fn definitions_get_fresh_ids_in_order() {
    let mut defs = DefinitionMap::default();
    let a = defs.insert(AstId(10), DefKind::Struct);
    let b = defs.insert(AstId(11), DefKind::Function);
    assert_eq!(a, DefId(0));
    assert_eq!(b, DefId(1));
    assert_eq!(defs.next_def_id(), DefId(2));
    assert_eq!(defs.get_definition(a), Some(&Definition::new(DefId(0), DefKind::Struct)));
    assert_eq!(defs.get_def_from_ast(AstId(11)), Some(&DefId(1)));
    assert_eq!(defs.get_def_from_ast(AstId(12)), None);
    let kinds = defs.def_kinds();
    assert_eq!(kinds.len(), 2);
    assert_eq!(kinds[&1], DefKind::Function);
}

#[test]
fn resolutions_read_back_what_was_written() {
    let mut defs = DefinitionMap::default();
    defs.insert_resolution(AstId(3), Res::PrimTy(PrimTy::Bool));
    assert_eq!(defs.get_resolution(AstId(3)), Some(&Res::PrimTy(PrimTy::Bool)));
    defs.insert_resolution(AstId(3), Res::Error);
    assert_eq!(defs.get_resolution(AstId(3)), Some(&Res::Error));
    assert_eq!(defs.get_resolution(AstId(4)), None);
    defs.insert_partial_res(AstId(5), PartialRes::new(Res::Local(AstId(1)), 2));
    let p = defs.get_partial_res(AstId(5)).unwrap();
    assert_eq!(p.base_res(), Res::Local(AstId(1)));
    assert_eq!(p.unresolved_segments(), 2);
}

#[test]
fn resolution_map_keeps_the_last_insert() {
    let mut map = ResolutionMap::default();
    map.insert(AstId(1), DefId(7));
    map.insert(AstId(1), DefId(8));
    assert_eq!(map.get(AstId(1)), Some(DefId(8)));
    assert_eq!(map.get(AstId(2)), None);
}

#[test]
fn name_table_replaces_and_lists_keys() {
    let mut t: NameTable<u32> = NameTable::new();
    t.insert("a".to_string(), 1);
    t.insert("b".to_string(), 2);
    t.insert("a".to_string(), 3);
    assert_eq!(t.get(&"a".to_string()), Some(&3));
    assert_eq!(t.get(&"c".to_string()), None);
    let mut keys = t.keys();
    keys.sort();
    assert_eq!(keys, vec!["a".to_string(), "b".to_string()]);
}

#[test]
fn rib_reads_back_its_bindings() {
    let mut rib = Rib::local();
    rib.insert(Ident::new("x".to_string()), Res::Local(AstId(4)));
    assert_eq!(rib.get(&Ident::new("x".to_string())), Some(Res::Local(AstId(4))));
    assert_eq!(rib.get(&Ident::new("y".to_string())), None);
}

#[test]
fn primitive_type_names() {
    assert_eq!(PrimTy::from_name("i32"), Some(PrimTy::I32));
    assert_eq!(PrimTy::from_name("u32"), Some(PrimTy::U32));
    assert_eq!(PrimTy::from_name("f64"), Some(PrimTy::F64));
    assert_eq!(PrimTy::from_name("bool"), Some(PrimTy::Bool));
    assert_eq!(PrimTy::from_name("str"), Some(PrimTy::Str));
    assert_eq!(PrimTy::from_name("String"), None);
}

#[test]
fn child_scope_shadows_its_parent() {
    let mut parent = Scope::new(None);
    parent.insert("x".to_string(), DefId(1));
    parent.insert("y".to_string(), DefId(2));
    let mut child = parent.child();
    child.insert("x".to_string(), DefId(3));
    assert_eq!(child.lookup("x"), Some(DefId(3)));
    assert_eq!(child.lookup("y"), Some(DefId(2)));
    assert_eq!(child.lookup("z"), None);
    assert_eq!(parent.lookup("x"), Some(DefId(1)));
}

#[test]
fn modules_bind_names() {
    let root = Module::root();
    assert_eq!(root.parent(), None);
    let mut m = Module::new(ModuleId(0), ModuleKind::Def(DefId(5)));
    m.define(Ident::new("f".to_string()), Binding::Item(DefId(6)));
    assert_eq!(m.get(&Ident::new("f".to_string())), Some(&Binding::Item(DefId(6))));
    assert_eq!(m.get(&Ident::new("g".to_string())), None);
    assert_eq!(m.parent(), Some(ModuleId(0)));
}

#[test]
fn root_scope_finds_nothing_it_does_not_bind() {
    let mut root = Scope::new(None);
    root.insert("x".to_string(), DefId(1));
    assert_eq!(root.lookup("x"), Some(DefId(1)));
    assert_eq!(root.lookup("y"), None);
}
