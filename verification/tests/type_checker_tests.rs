use atmos::public::defs::DefId as PublicDefId;
use atmos::public::ty::{convert_ty, GenericArg as PublicArg, Ty as PublicTy};
use atmos::ast_lowerer::hir::HirId;
use atmos::resolver::defs::DefId;
use atmos::span::Span;
use atmos::type_checker::checker::{InferCtxt, TypeChecker};
use atmos::type_checker::error::TypeCheckerError;
use atmos::type_checker::pretty::{pretty_print_args, pretty_print_ty};
use atmos::type_checker::ty::{CollectedTypes, Const, GenericArg, GenericParamDef, GenericParamKind, Generics, InferTy, Ty, TyVarId};

fn var(i: u32) -> Ty {
    Ty::Infer(InferTy::TyVar(TyVarId(i)))
}

fn int_var(i: u32) -> Ty {
    Ty::Infer(InferTy::IntVar(TyVarId(i)))
}

fn checker() -> TypeChecker {
    TypeChecker::new(CollectedTypes::new())
}

fn mismatch(expected: &str, found: &str) -> TypeCheckerError {
    TypeCheckerError::TypeMismatch {
        expected_span: Span::new(0, 0),
        found_span: Span::new(0, 0),
        expected: expected.to_string(),
        found: found.to_string(),
    }
}

#[test]
fn fresh_variables_are_numbered_in_order() {
    let mut ctxt = InferCtxt::new();
    assert_eq!(ctxt.next_ty_var(), var(0));
    assert_eq!(ctxt.next_int_var(), int_var(1));
    assert_eq!(ctxt.next_ty_var(), var(2));
    assert_eq!(ctxt.current_ty_var, 3);
}

#[test]
fn ty_var_id_round_trips() {
    assert_eq!(TyVarId::new(7).index(), 7);
}

#[test]
fn unifying_a_variable_binds_it() {
    let mut c = checker();
    let v = c.infer_ctxt.next_ty_var();
    c.unify(var(0), Ty::I32);
    assert!(c.errors.is_empty());
    assert_eq!(c.infer_ctxt.shallow_resolve(v), Ty::I32);
}

#[test]
fn unifying_the_other_way_binds_too() {
    let mut c = checker();
    c.unify(Ty::Bool, var(0));
    assert_eq!(c.infer_ctxt.shallow_resolve(var(0)), Ty::Bool);
}

#[test]
fn unifying_equal_primitives_changes_nothing() {
    let mut c = checker();
    c.unify(Ty::Str, Ty::Str);
    c.unify(Ty::Unit, Ty::Unit);
    assert!(c.errors.is_empty());
    assert!(c.infer_ctxt.type_var_map.is_empty());
}

#[test]
fn mismatched_primitives_are_reported() {
    let mut c = checker();
    c.unify(Ty::I32, Ty::U32);
    assert_eq!(c.errors, vec![mismatch("u32", "i32")]);
}

#[test]
fn never_does_not_unify_with_itself() {
    let mut c = checker();
    c.unify(Ty::Never, Ty::Never);
    assert_eq!(c.errors, vec![mismatch("!", "!")]);
}

#[test]
fn integer_variable_takes_an_integer_type() {
    let mut c = checker();
    c.unify(int_var(0), Ty::U32);
    assert_eq!(c.infer_ctxt.shallow_resolve(int_var(0)), Ty::U32);
    c.unify(Ty::I32, int_var(1));
    assert_eq!(c.infer_ctxt.shallow_resolve(int_var(1)), Ty::I32);
    assert!(c.errors.is_empty());
}

#[test]
fn integer_variable_does_not_take_a_string() {
    let mut c = checker();
    c.unify(int_var(0), Ty::Str);
    assert_eq!(c.errors, vec![mismatch("str", "{integer}")]);
}

#[test]
fn chains_of_variables_resolve_to_the_end() {
    let mut c = checker();
    c.unify(var(0), var(1));
    c.unify(var(1), Ty::Bool);
    assert_eq!(c.infer_ctxt.shallow_resolve(var(0)), Ty::Bool);
}

#[test]
fn tuples_unify_element_by_element() {
    let mut c = checker();
    c.unify(Ty::Tuple(vec![var(0), Ty::I32]), Ty::Tuple(vec![Ty::Bool, var(1)]));
    assert!(c.errors.is_empty());
    assert_eq!(c.infer_ctxt.shallow_resolve(var(0)), Ty::Bool);
    assert_eq!(c.infer_ctxt.shallow_resolve(var(1)), Ty::I32);
}

#[test]
fn structs_of_different_definitions_mismatch() {
    let mut c = checker();
    c.unify(Ty::Struct(DefId(1), vec![]), Ty::Struct(DefId(2), vec![]));
    assert_eq!(c.errors, vec![mismatch("Struct DefId(2)<>", "Struct DefId(1)<>")]);
}

#[test]
fn structs_of_one_definition_unify_their_arguments() {
    let mut c = checker();
    c.unify(
        Ty::Struct(DefId(4), vec![GenericArg::Type(var(0))]),
        Ty::Struct(DefId(4), vec![GenericArg::Type(Ty::Str)]),
    );
    assert!(c.errors.is_empty());
    assert_eq!(c.infer_ctxt.shallow_resolve(var(0)), Ty::Str);
}

#[test]
fn deep_resolution_reaches_inside_types() {
    let mut c = checker();
    c.unify(var(0), Ty::I32);
    c.unify(var(1), Ty::Tuple(vec![var(0), Ty::Ptr(Box::new(var(0)))]));
    let resolved = c.infer_ctxt.deeply_resolve(var(1));
    assert_eq!(resolved, Ty::Tuple(vec![Ty::I32, Ty::Ptr(Box::new(Ty::I32))]));
}

#[test]
fn unbound_variables_stay_as_they_are() {
    let c = checker();
    assert_eq!(c.infer_ctxt.shallow_resolve(var(5)), var(5));
    assert_eq!(c.infer_ctxt.deeply_resolve(var(5)), var(5));
}

#[test]
fn instantiation_replaces_generic_parameters() {
    let c = checker();
    let ty = Ty::Struct(DefId(1), vec![GenericArg::Type(Ty::GenericParam(1)), GenericArg::Type(Ty::GenericParam(0))]);
    let substs = vec![GenericArg::Type(Ty::Bool), GenericArg::Type(Ty::U32)];
    assert_eq!(
        c.instantiate(&ty, &substs),
        Ty::Struct(DefId(1), vec![GenericArg::Type(Ty::U32), GenericArg::Type(Ty::Bool)])
    );
    let f = Ty::FnPtr(vec![Ty::GenericParam(0)], Box::new(Ty::Tuple(vec![Ty::GenericParam(1)])));
    assert_eq!(
        c.instantiate(&f, &substs),
        Ty::FnPtr(vec![Ty::Bool], Box::new(Ty::Tuple(vec![Ty::U32])))
    );
}

#[test]
fn identity_arguments_are_fresh_variables() {
    let mut c = checker();
    let args = c.identity_args(2);
    assert_eq!(args, vec![GenericArg::Type(var(0)), GenericArg::Type(var(1))]);
    assert_eq!(c.infer_ctxt.current_ty_var, 2);
}

#[test]
fn generics_of_an_item_include_its_parent() {
    let mut types = CollectedTypes::new();
    let p = GenericParamDef { def_id: DefId(10), index: 0, kind: GenericParamKind::Type };
    let q = GenericParamDef { def_id: DefId(11), index: 1, kind: GenericParamKind::Type };
    types.generics_of.insert(1, Generics { parent: None, params: vec![p] });
    types.generics_of.insert(2, Generics { parent: Some(DefId(1)), params: vec![q] });
    let c = TypeChecker::new(types);
    assert_eq!(c.generics_of(DefId(2)), vec![q, p]);
    assert_eq!(c.generics_of(DefId(1)), vec![p]);
}

#[test]
fn types_are_written_as_in_source() {
    assert_eq!(pretty_print_ty(&Ty::Tuple(vec![])), "()");
    assert_eq!(pretty_print_ty(&Ty::Tuple(vec![Ty::I32])), "(i32)");
    assert_eq!(pretty_print_ty(&Ty::Tuple(vec![Ty::I32, Ty::Bool])), "(i32, bool)");
    assert_eq!(pretty_print_ty(&Ty::FnPtr(vec![Ty::I32, Ty::U32], Box::new(Ty::Unit))), "fn(i32, u32) -> ()");
    assert_eq!(pretty_print_ty(&Ty::Ptr(Box::new(Ty::Str))), "&str");
    assert_eq!(pretty_print_ty(&Ty::Slice(Box::new(Ty::F64))), "[f64]");
    assert_eq!(pretty_print_ty(&Ty::Array(Box::new(Ty::I32), Const::Expr(HirId(3)))), "[i32; N]");
    assert_eq!(pretty_print_ty(&Ty::GenericParam(12)), "T12");
    assert_eq!(pretty_print_ty(&Ty::Never), "!");
    assert_eq!(pretty_print_ty(&Ty::Error), "{err}");
    assert_eq!(pretty_print_ty(&var(3)), "{unknown}");
    assert_eq!(pretty_print_ty(&int_var(3)), "{integer}");
    assert_eq!(
        pretty_print_ty(&Ty::Enum(DefId(7), vec![GenericArg::Type(Ty::Bool), GenericArg::Const(Const::Expr(HirId(1)))])),
        "Enum DefId(7)<bool, _>"
    );
    assert_eq!(pretty_print_ty(&Ty::Fn(DefId(0), vec![])), "fn(DefId(0))<>");
    assert_eq!(pretty_print_args(&vec![GenericArg::Type(Ty::I32), GenericArg::Type(Ty::U32)]), "i32, u32");
}

#[test]
fn types_are_handed_out_with_named_variables() {
    assert_eq!(convert_ty(&Ty::Tuple(vec![Ty::I32, var(4)])), PublicTy::Tuple(vec![PublicTy::I32, PublicTy::TyVar("4".to_string())]));
    assert_eq!(convert_ty(&int_var(2)), PublicTy::IntVar("2".to_string()));
    assert_eq!(
        convert_ty(&Ty::Struct(DefId(9), vec![GenericArg::Type(Ty::Bool), GenericArg::Const(Const::Expr(HirId(3)))])),
        PublicTy::Struct(
            PublicDefId(9),
            vec![PublicArg::Type(PublicTy::Bool), PublicArg::Const("Expr(HirId(3))".to_string())]
        )
    );
    assert_eq!(
        convert_ty(&Ty::Array(Box::new(Ty::U32), Const::Expr(HirId(12)))),
        PublicTy::Array(Box::new(PublicTy::U32), "Expr(HirId(12))".to_string())
    );
    assert_eq!(convert_ty(&Ty::Error), PublicTy::Error);
}
