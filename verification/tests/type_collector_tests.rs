use atmos::ast_lowerer::hir::{GenericArg as HirArg, GenericParam, GenericParamKind, HirId, HirNode, Path, PathSegment, Ty as HirTy};
use atmos::parser::ast::Ident;
use atmos::resolver::defs::{DefId, DefKind};
use atmos::resolver::ribs::{PrimTy, Res, SelfTyKind};
use atmos::span::Span;
use atmos::type_checker::error::TypeCheckerError;
use atmos::type_checker::ty::{AssocItemDef, GenericArg, GenericParamDef, GenericParamKind as ParamKind, Generics, Ty};
use atmos::type_checker::type_collector::{CollectState, TypeCollector};
use std::collections::HashMap;

fn node<T>(node: T, offset: usize, id: usize) -> HirNode<T> {
    HirNode { node, span: Span::new(offset, 1), hir_id: HirId(id) }
}

fn segment(name: &str, args: Vec<HirNode<HirArg>>) -> HirNode<PathSegment> {
    node(PathSegment { ident: node(Ident::new(name.to_string()), 0, 0), args }, 4, 0)
}

fn path_ty(res: Res<atmos::parser::ast::AstId>, name: &str, args: Vec<HirNode<HirArg>>) -> HirNode<HirTy> {
    node(HirTy::Path(node(Path::Resolved { res, segments: vec![segment(name, args)] }, 2, 0)), 1, 0)
}

fn prim(p: PrimTy, name: &str) -> HirNode<HirTy> {
    path_ty(Res::PrimTy(p), name, vec![])
}

fn collector<'a>() -> TypeCollector<'a> {
    TypeCollector::new(HashMap::new(), HashMap::new())
}

fn generics(parent: Option<DefId>, defs: &[usize]) -> Generics {
    Generics {
        parent,
        params: defs
            .iter()
            .enumerate()
            .map(|(i, d)| GenericParamDef { def_id: DefId(*d), index: i, kind: ParamKind::Type })
            .collect(),
    }
}

#[test]
fn primitive_types_lower_to_themselves() {
    let mut c = collector();
    assert_eq!(c.lower_ty(&prim(PrimTy::I32, "i32")), Ty::I32);
    assert_eq!(c.lower_ty(&prim(PrimTy::Bool, "bool")), Ty::Bool);
    assert_eq!(c.lower_ty(&prim(PrimTy::Str, "str")), Ty::Str);
    assert!(c.errors.is_empty());
}

#[test]
fn empty_tuple_is_unit_and_others_are_tuples() {
    let mut c = collector();
    assert_eq!(c.lower_ty(&node(HirTy::Tuple(vec![]), 0, 0)), Ty::Unit);
    let pair = node(HirTy::Tuple(vec![prim(PrimTy::Bool, "bool"), prim(PrimTy::U32, "u32")]), 0, 0);
    assert_eq!(c.lower_ty(&pair), Ty::Tuple(vec![Ty::Bool, Ty::U32]));
}

#[test]
fn arrays_lower_to_slices_and_pointers_to_pointers() {
    let mut c = collector();
    let len = node(atmos::ast_lowerer::hir::Expr::Continue, 0, 9);
    let array = node(HirTy::Array(Box::new(prim(PrimTy::I32, "i32")), Box::new(len)), 0, 0);
    assert_eq!(c.lower_ty(&array), Ty::Slice(Box::new(Ty::I32)));
    let ptr = node(HirTy::Ptr(Box::new(prim(PrimTy::F64, "f64"))), 0, 0);
    assert_eq!(c.lower_ty(&ptr), Ty::Ptr(Box::new(Ty::F64)));
}

#[test]
fn function_pointers_default_to_unit() {
    let mut c = collector();
    let f = node(HirTy::Fn(vec![prim(PrimTy::I32, "i32")], None), 0, 0);
    assert_eq!(c.lower_ty(&f), Ty::FnPtr(vec![Ty::I32], Box::new(Ty::Unit)));
    let g = node(HirTy::Fn(vec![], Some(Box::new(prim(PrimTy::Bool, "bool")))), 0, 0);
    assert_eq!(c.lower_ty(&g), Ty::FnPtr(vec![], Box::new(Ty::Bool)));
}

#[test]
fn struct_with_wrong_number_of_arguments_is_reported() {
    let mut c = collector();
    c.collected_types.generics_of.insert(3, generics(None, &[4]));
    let args = vec![node(HirArg::Type(prim(PrimTy::I32, "i32")), 0, 0), node(HirArg::Type(prim(PrimTy::U32, "u32")), 0, 0)];
    let ty = path_ty(Res::Def(DefId(3), DefKind::Struct), "Foo", args);
    assert_eq!(
        c.lower_ty(&ty),
        Ty::Struct(DefId(3), vec![GenericArg::Type(Ty::I32), GenericArg::Type(Ty::U32)])
    );
    assert_eq!(
        c.errors,
        vec![TypeCheckerError::GenericArgArityMismatch {
            span: Span::new(4, 1),
            name: "Foo".to_string(),
            expected: 1,
            found: 2,
        }]
    );
}

#[test]
fn enum_with_right_arguments_is_not_reported() {
    let mut c = collector();
    c.collected_types.generics_of.insert(5, generics(None, &[]));
    let ty = path_ty(Res::Def(DefId(5), DefKind::Enum), "E", vec![]);
    assert_eq!(c.lower_ty(&ty), Ty::Enum(DefId(5), vec![]));
    assert!(c.errors.is_empty());
}

#[test]
fn alias_being_collected_is_a_cycle() {
    let mut c = collector();
    c.collecting.insert(7, CollectState::InProgress);
    let ty = path_ty(Res::Def(DefId(7), DefKind::TypeAlias), "A", vec![]);
    assert_eq!(c.lower_ty(&ty), Ty::Error);
    assert_eq!(
        c.errors,
        vec![TypeCheckerError::CyclicTypeDefinition { span: Span::new(1, 1), name: "A".to_string() }]
    );
}

#[test]
fn collected_alias_gives_its_type() {
    let mut c = collector();
    c.collecting.insert(7, CollectState::Done);
    c.collected_types.type_of.insert(7, Ty::Bool);
    let ty = path_ty(Res::Def(DefId(7), DefKind::TypeAlias), "A", vec![]);
    assert_eq!(c.lower_ty(&ty), Ty::Bool);
}

#[test]
fn alias_not_yet_collected_is_lowered_on_demand() {
    let target = node(HirTy::Ptr(Box::new(prim(PrimTy::U32, "u32"))), 0, 0);
    let mut aliases = HashMap::new();
    aliases.insert(8, &target);
    let mut c = TypeCollector::new(HashMap::new(), aliases);
    let ty = path_ty(Res::Def(DefId(8), DefKind::TypeAlias), "B", vec![]);
    assert_eq!(c.lower_ty(&ty), Ty::Ptr(Box::new(Ty::U32)));
    assert!(c.errors.is_empty());
}

#[test]
fn generic_parameters_lower_to_their_index() {
    let mut parents = HashMap::new();
    parents.insert(11, DefId(10));
    let mut c = TypeCollector::new(parents, HashMap::new());
    c.collected_types.generics_of.insert(10, generics(None, &[12, 11]));
    let ty = path_ty(Res::Def(DefId(11), DefKind::TypeParam), "T", vec![]);
    assert_eq!(c.lower_ty(&ty), Ty::GenericParam(1));
}

#[test]
fn generic_parameters_become_arguments() {
    let mut parents = HashMap::new();
    parents.insert(21, DefId(20));
    parents.insert(22, DefId(20));
    let mut c = TypeCollector::new(parents, HashMap::new());
    c.collected_types.generics_of.insert(20, generics(None, &[21, 22]));
    let params = vec![
        node(GenericParam { def_id: DefId(21), ident: node(Ident::new("T".to_string()), 0, 0), bounds: vec![], kind: GenericParamKind::Type }, 0, 0),
        node(GenericParam { def_id: DefId(22), ident: node(Ident::new("U".to_string()), 0, 0), bounds: vec![], kind: GenericParamKind::Type }, 0, 0),
    ];
    assert_eq!(
        c.lower_generic_params(&params),
        vec![GenericArg::Type(Ty::GenericParam(0)), GenericArg::Type(Ty::GenericParam(1))]
    );
    let _ = c.lower_ty(&node(HirTy::Tuple(vec![]), 0, 0));
}

#[test]
fn self_type_stands_for_the_type_or_the_trait_parameter() {
    let mut c = collector();
    c.collected_types.type_of.insert(30, Ty::Struct(DefId(30), vec![]));
    let adt = path_ty(Res::SelfTy(SelfTyKind::AdtDef { alias_to: DefId(30) }), "Self", vec![]);
    assert_eq!(c.lower_ty(&adt), Ty::Struct(DefId(30), vec![]));
    let tr = path_ty(Res::SelfTy(SelfTyKind::TraitDef { trait_def: DefId(31) }), "Self", vec![]);
    assert_eq!(c.lower_ty(&tr), Ty::GenericParam(0));
    let err = path_ty(Res::Error, "x", vec![]);
    assert_eq!(c.lower_ty(&err), Ty::Error);
}

#[test]
fn associated_type_of_a_type_lists_the_candidates() {
    let mut c = collector();
    c.collected_types.impls_of.insert(40, vec![DefId(41), DefId(42)]);
    c.collected_types.assoc_items.insert(41, vec![AssocItemDef { def_id: DefId(43), ident: Ident::new("Out".to_string()) }]);
    c.collected_types.assoc_items.insert(
        42,
        vec![
            AssocItemDef { def_id: DefId(44), ident: Ident::new("Out".to_string()) },
            AssocItemDef { def_id: DefId(45), ident: Ident::new("Other".to_string()) },
        ],
    );
    let arg = node(HirArg::Type(prim(PrimTy::I32, "i32")), 0, 77);
    let path = Path::Unresolved {
        res: Res::Def(DefId(40), DefKind::Struct),
        resolved_segments: vec![segment("Foo", vec![arg])],
        unresolved_segments: vec![segment("Out", vec![])],
    };
    let ty = node(HirTy::Path(node(path, 0, 0)), 0, 0);
    assert_eq!(
        c.lower_ty(&ty),
        Ty::InherentTyAlias {
            candidates: vec![DefId(43), DefId(44), DefId(45)],
            ident: Ident::new("Out".to_string()),
            resolved_args: vec![HirId(77)],
            unresolved_args: vec![],
        }
    );
}

fn checker_with_generics(entries: &[(usize, Generics)]) -> atmos::type_checker::checker::TypeChecker {
    let mut types = atmos::type_checker::ty::CollectedTypes::new();
    for (d, g) in entries {
        types.generics_of.insert(*d, g.clone());
    }
    atmos::type_checker::checker::TypeChecker::new(types)
}

#[test]
fn checker_lowers_primitives_and_tuples() {
    let mut c = checker_with_generics(&[]);
    assert_eq!(c.lower_ty(&prim(PrimTy::U32, "u32")), Ty::U32);
    assert_eq!(c.lower_ty(&node(HirTy::Tuple(vec![]), 0, 0)), Ty::Tuple(vec![]));
    let f = node(HirTy::Fn(vec![prim(PrimTy::Bool, "bool")], None), 0, 0);
    assert_eq!(c.lower_ty(&f), Ty::FnPtr(vec![Ty::Bool], Box::new(Ty::Unit)));
    assert!(c.errors.is_empty());
}

#[test]
fn checker_reports_missing_arguments_in_type_position() {
    let mut c = checker_with_generics(&[(3, generics(None, &[4]))]);
    let ty = path_ty(Res::Def(DefId(3), DefKind::Struct), "Foo", vec![]);
    assert_eq!(c.lower_ty(&ty), Ty::Struct(DefId(3), vec![]));
    assert_eq!(
        c.errors,
        vec![TypeCheckerError::GenericArgArityMismatch { span: Span::new(4, 1), name: "Foo".to_string(), expected: 1, found: 0 }]
    );
}

#[test]
fn checker_infers_missing_arguments_in_value_position() {
    let mut c = checker_with_generics(&[(3, generics(None, &[4, 5]))]);
    let seg = segment("Foo", vec![]);
    let args = c.generics_arg_for_segment(DefId(3), &seg, atmos::type_checker::lower::GenericArgPosition::Value);
    assert_eq!(
        args,
        vec![
            GenericArg::Type(Ty::Infer(atmos::type_checker::ty::InferTy::TyVar(atmos::type_checker::ty::TyVarId(0)))),
            GenericArg::Type(Ty::Infer(atmos::type_checker::ty::InferTy::TyVar(atmos::type_checker::ty::TyVarId(1)))),
        ]
    );
    assert_eq!(c.infer_ctxt.current_ty_var, 2);
    assert!(c.errors.is_empty());
}

#[test]
fn checker_reports_arguments_on_leading_segments() {
    let mut c = checker_with_generics(&[(3, generics(None, &[]))]);
    let arg = node(HirArg::Type(prim(PrimTy::I32, "i32")), 0, 0);
    let path = Path::Resolved { res: Res::Def(DefId(3), DefKind::Struct), segments: vec![segment("m", vec![arg]), segment("Foo", vec![])] };
    let ty = node(HirTy::Path(node(path, 2, 0)), 1, 0);
    assert_eq!(c.lower_ty(&ty), Ty::Struct(DefId(3), vec![]));
    assert_eq!(c.errors, vec![TypeCheckerError::GenericArgsOnLeadingSegment { span: Span::new(4, 1) }]);
}

#[test]
fn checker_reports_a_type_given_for_a_constant_parameter() {
    let mut g = generics(None, &[4]);
    g.params[0].kind = ParamKind::Const;
    let mut c = checker_with_generics(&[(3, g)]);
    let arg = node(HirArg::Type(prim(PrimTy::I32, "i32")), 0, 0);
    let ty = path_ty(Res::Def(DefId(3), DefKind::Enum), "E", vec![arg]);
    assert_eq!(c.lower_ty(&ty), Ty::Enum(DefId(3), vec![GenericArg::Type(Ty::I32)]));
    assert_eq!(
        c.errors,
        vec![TypeCheckerError::GenericArgKindMismatch {
            expected_span: Span::new(4, 1),
            found_span: Span::new(4, 1),
            param: "0".to_string(),
            expected: "const".to_string(),
            found: "type".to_string(),
        }]
    );
}

#[test]
fn checker_self_type_gets_fresh_arguments() {
    let mut c = checker_with_generics(&[(30, generics(None, &[31]))]);
    c.collected_types
        .type_of
        .insert(30, Ty::Struct(DefId(30), vec![GenericArg::Type(Ty::GenericParam(0))]));
    let ty = path_ty(Res::SelfTy(SelfTyKind::Impl { impl_block: DefId(30) }), "Self", vec![]);
    assert_eq!(
        c.lower_ty(&ty),
        Ty::Struct(
            DefId(30),
            vec![GenericArg::Type(Ty::Infer(atmos::type_checker::ty::InferTy::TyVar(atmos::type_checker::ty::TyVarId(0))))]
        )
    );
    assert_eq!(c.infer_ctxt.current_ty_var, 1);
}

#[test]
fn alias_that_names_itself_is_a_cycle() {
    let target = path_ty(Res::Def(DefId(9), DefKind::TypeAlias), "B", vec![]);
    let mut aliases = HashMap::new();
    aliases.insert(9, &target);
    let mut c = TypeCollector::new(HashMap::new(), aliases);
    let ty = path_ty(Res::Def(DefId(9), DefKind::TypeAlias), "B", vec![]);
    assert_eq!(c.lower_ty(&ty), Ty::Error);
    assert_eq!(
        c.errors,
        vec![TypeCheckerError::CyclicTypeDefinition { span: Span::new(1, 1), name: "B".to_string() }]
    );
    assert!(c.collecting.is_empty());
}
