use crate::public::defs::DefId;
use crate::strings::{decimal, push_decimal, push_str};
use crate::type_checker::model::{args_model, tys_model, ArgModel, TyModel};
use crate::type_checker::ty as internal_ty;
use vstd::prelude::*;

verus! {

broadcast use vstd::std_specs::vec::group_vec_axioms;

/// A type, as the compiler hands it out. Constants and lowered generic
/// arguments are named by the ids of their nodes (`Expr(HirId(3))`,
/// `HirId(5)`); inference variables by their numbers.
#[derive(Debug, PartialEq)]
pub enum Ty {
    Unit,
    Bool,
    I32,
    U32,
    F64,
    Str,
    Never,
    Array(Box<Ty>, String),
    Slice(Box<Ty>),
    Tuple(Vec<Ty>),
    Ptr(Box<Ty>),
    FnPtr(Vec<Ty>, Box<Ty>),
    Fn(DefId, Vec<GenericArg>),
    Struct(DefId, Vec<GenericArg>),
    Enum(DefId, Vec<GenericArg>),
    InherentTyAlias {
        candidates: Vec<DefId>,
        ident: String,
        resolved_args: Vec<String>,
        unresolved_args: Vec<String>,
    },
    GenericParam(usize),
    TyVar(String),
    IntVar(String),
    Error,
}

#[derive(Debug, PartialEq)]
pub enum GenericArg {
    Type(Ty),
    Const(String),
}

#[derive(Debug, PartialEq)]
pub struct FnSig {
    pub params: Vec<Ty>,
    pub return_ty: Ty,
}

#[derive(Debug, PartialEq)]
pub struct PredicateDef {
    pub def_id: DefId,
    pub ty: Ty,
    pub trait_bound: DefId,
}

#[derive(Clone, Debug, PartialEq, Eq)]
pub struct Generics {
    pub parent: Option<DefId>,
    pub params: Vec<GenericParamDef>,
}

#[derive(Clone, Copy, Debug, PartialEq, Eq, Structural)]
pub struct GenericParamDef {
    pub def_id: DefId,
    pub index: usize,
}

/// How a node id is named: `HirId(5)`.
pub open spec fn hir_id_text(n: usize) -> Seq<char> {
    "HirId("@ + decimal(n as nat) + ")"@
}

/// How a constant argument is named: `Expr(HirId(3))`.
pub open spec fn const_text(c: internal_ty::Const) -> Seq<char> {
    match c {
        internal_ty::Const::Expr(id) => "Expr("@ + hir_id_text(id.0) + ")"@,
    }
}

fn hir_id_string(n: usize) -> (r: String)
    ensures
        r@ == hir_id_text(n),
{
    let mut s = String::new();
    push_str(&mut s, "HirId(");
    push_decimal(&mut s, n);
    push_str(&mut s, ")");
    assert(s@ =~= hir_id_text(n));
    s
}

fn const_string(c: &internal_ty::Const) -> (r: String)
    ensures
        r@ == const_text(*c),
{
    match c {
        internal_ty::Const::Expr(id) => {
            let mut s = String::new();
            push_str(&mut s, "Expr(");
            let inner = hir_id_string(id.0);
            crate::strings::push_string(&mut s, &inner);
            push_str(&mut s, ")");
            assert(s@ =~= const_text(*c));
            s
        },
    }
}

/// Whether the handed-out type `p` stands for the type `t`.
pub open spec fn converts(t: TyModel, p: Ty) -> bool
    decreases t,
{
    match t {
        TyModel::Unit => p is Unit,
        TyModel::Bool => p is Bool,
        TyModel::I32 => p is I32,
        TyModel::U32 => p is U32,
        TyModel::F64 => p is F64,
        TyModel::Str => p is Str,
        TyModel::Never => p is Never,
        TyModel::Array(e, c) => p matches Ty::Array(pe, s) && converts(*e, *pe) && s@ == const_text(c),
        TyModel::Slice(e) => p matches Ty::Slice(pe) && converts(*e, *pe),
        TyModel::Tuple(ts) => p matches Ty::Tuple(pv) && pv@.len() == ts.len() && forall|i: int|
            0 <= i < ts.len() ==> converts(#[trigger] ts[i], pv@[i]),
        TyModel::Ptr(e) => p matches Ty::Ptr(pe) && converts(*e, *pe),
        TyModel::FnPtr(ps, r) => p matches Ty::FnPtr(pv, pr) && pv@.len() == ps.len() && (forall|i: int|
            0 <= i < ps.len() ==> converts(#[trigger] ps[i], pv@[i])) && converts(*r, *pr),
        TyModel::Fn(d, a) => p matches Ty::Fn(pd, pa) && pd.0 == d.0 && args_convert(a, pa@),
        TyModel::Struct(d, a) => p matches Ty::Struct(pd, pa) && pd.0 == d.0 && args_convert(a, pa@),
        TyModel::Enum(d, a) => p matches Ty::Enum(pd, pa) && pd.0 == d.0 && args_convert(a, pa@),
        TyModel::InherentTyAlias { candidates, ident, resolved_args, unresolved_args } => p matches Ty::InherentTyAlias {
            candidates: pc,
            ident: pi,
            resolved_args: pr,
            unresolved_args: pu,
        } && pc@.len() == candidates.len() && (forall|i: int|
            0 <= i < candidates.len() ==> (#[trigger] pc@[i]).0 == candidates[i].0) && pi@ == ident
            && pr@.len() == resolved_args.len() && (forall|i: int|
            0 <= i < resolved_args.len() ==> (#[trigger] pr@[i])@ == hir_id_text(resolved_args[i].0))
            && pu@.len() == unresolved_args.len() && (forall|i: int|
            0 <= i < unresolved_args.len() ==> (#[trigger] pu@[i])@ == hir_id_text(unresolved_args[i].0)),
        TyModel::GenericParam(i) => p == Ty::GenericParam(i),
        TyModel::Infer(internal_ty::InferTy::TyVar(v)) => p matches Ty::TyVar(s) && s@ == decimal(v.0 as nat),
        TyModel::Infer(internal_ty::InferTy::IntVar(v)) => p matches Ty::IntVar(s) && s@ == decimal(v.0 as nat),
        TyModel::Error => p is Error,
    }
}

/// Whether the handed-out arguments stand for the arguments `a`, one for one.
pub open spec fn args_convert(a: Seq<ArgModel>, pa: Seq<GenericArg>) -> bool
    decreases a,
{
    pa.len() == a.len() && forall|i: int|
        0 <= i < a.len() ==> match #[trigger] a[i] {
            ArgModel::Type(t) => pa[i] matches GenericArg::Type(pt) && converts(t, pt),
            ArgModel::Const(c) => pa[i] matches GenericArg::Const(s) && s@ == const_text(c),
        }
}

fn convert_tys(v: &Vec<internal_ty::Ty>) -> (r: Vec<Ty>)
    ensures
        r@.len() == v@.len(),
        forall|i: int| 0 <= i < v@.len() ==> converts(#[trigger] tys_model(v@)[i], r@[i]),
    decreases v@,
{
    let mut out: Vec<Ty> = Vec::new();
    let mut i: usize = 0;
    while i < v.len()
        invariant
            i <= v.len(),
            out@.len() == i,
            forall|j: int| 0 <= j < i ==> converts(#[trigger] tys_model(v@)[j], out@[j]),
        decreases v.len() - i,
    {
        proof {
            assert(decreases_to!(v@ => v@[i as int]));
            assert(tys_model(v@)[i as int] == v@[i as int].model());
        }
        out.push(convert_ty(&v[i]));
        i = i + 1;
    }
    out
}

fn convert_args(v: &Vec<internal_ty::GenericArg>) -> (r: Vec<GenericArg>)
    ensures
        args_convert(args_model(v@), r@),
    decreases v@,
{
    let mut out: Vec<GenericArg> = Vec::new();
    let mut i: usize = 0;
    while i < v.len()
        invariant
            i <= v.len(),
            out@.len() == i,
            forall|j: int|
                0 <= j < i ==> match #[trigger] args_model(v@)[j] {
                    ArgModel::Type(t) => out@[j] matches GenericArg::Type(pt) && converts(t, pt),
                    ArgModel::Const(c) => out@[j] matches GenericArg::Const(s) && s@ == const_text(c),
                },
        decreases v.len() - i,
    {
        proof {
            assert(decreases_to!(v@ => v@[i as int]));
            assert(args_model(v@)[i as int] == v@[i as int].model());
        }
        out.push(convert_generic_arg(&v[i]));
        i = i + 1;
    }
    out
}

fn convert_hir_ids(v: &Vec<crate::ast_lowerer::hir::HirId>) -> (r: Vec<String>)
    ensures
        r@.len() == v@.len(),
        forall|i: int| 0 <= i < v@.len() ==> (#[trigger] r@[i])@ == hir_id_text(v@[i].0),
{
    let mut out: Vec<String> = Vec::new();
    let mut i: usize = 0;
    while i < v.len()
        invariant
            i <= v.len(),
            out@.len() == i,
            forall|j: int| 0 <= j < i ==> (#[trigger] out@[j])@ == hir_id_text(v@[j].0),
        decreases v.len() - i,
    {
        out.push(hir_id_string(v[i].0));
        i = i + 1;
    }
    out
}

/// The generic argument, as the compiler hands it out.
pub fn convert_generic_arg(internal: &internal_ty::GenericArg) -> (r: GenericArg)
    ensures
        match internal.model() {
            ArgModel::Type(t) => r matches GenericArg::Type(pt) && converts(t, pt),
            ArgModel::Const(c) => r matches GenericArg::Const(s) && s@ == const_text(c),
        },
    decreases internal,
{
    match internal {
        internal_ty::GenericArg::Type(t) => GenericArg::Type(convert_ty(t)),
        internal_ty::GenericArg::Const(c) => GenericArg::Const(const_string(c)),
    }
}

/// The type, as the compiler hands it out.
pub fn convert_ty(internal: &internal_ty::Ty) -> (r: Ty)
    ensures
        converts(internal.model(), r),
    decreases internal,
{
    match internal {
        internal_ty::Ty::Unit => Ty::Unit,
        internal_ty::Ty::Bool => Ty::Bool,
        internal_ty::Ty::I32 => Ty::I32,
        internal_ty::Ty::U32 => Ty::U32,
        internal_ty::Ty::F64 => Ty::F64,
        internal_ty::Ty::Str => Ty::Str,
        internal_ty::Ty::Never => Ty::Never,
        internal_ty::Ty::Array(e, c) => {
            let x = Ty::Array(Box::new(convert_ty(e)), const_string(c));
            assert(converts(internal.model(), x));
            x
        },
        internal_ty::Ty::Slice(e) => Ty::Slice(Box::new(convert_ty(e))),
        internal_ty::Ty::Tuple(v) => {
            proof {
                assert(decreases_to!(*internal => v@));
            }
            let r = convert_tys(v);
            let ghost ts = tys_model(v@);
            assert(internal.model() == TyModel::Tuple(ts));
            assert(ts.len() == r@.len());
            assert(forall|i: int| 0 <= i < ts.len() ==> converts(#[trigger] ts[i], r@[i]));
            let x = Ty::Tuple(r);
            assert(converts(internal.model(), x));
            x
        },
        internal_ty::Ty::Ptr(e) => Ty::Ptr(Box::new(convert_ty(e))),
        internal_ty::Ty::FnPtr(v, ret) => {
            proof {
                assert(decreases_to!(*internal => v@));
            }
            let r = convert_tys(v);
            let ghost ts = tys_model(v@);
            assert(ts.len() == r@.len());
            assert(forall|i: int| 0 <= i < ts.len() ==> converts(#[trigger] ts[i], r@[i]));
            let x = Ty::FnPtr(r, Box::new(convert_ty(ret)));
            assert(converts(internal.model(), x));
            x
        },
        internal_ty::Ty::Fn(d, a) => {
            proof {
                assert(decreases_to!(*internal => a@));
            }
            let x = Ty::Fn(DefId(d.0), convert_args(a));
            assert(converts(internal.model(), x));
            x
        },
        internal_ty::Ty::Struct(d, a) => {
            proof {
                assert(decreases_to!(*internal => a@));
            }
            let x = Ty::Struct(DefId(d.0), convert_args(a));
            assert(converts(internal.model(), x));
            x
        },
        internal_ty::Ty::Enum(d, a) => {
            proof {
                assert(decreases_to!(*internal => a@));
            }
            let x = Ty::Enum(DefId(d.0), convert_args(a));
            assert(converts(internal.model(), x));
            x
        },
        internal_ty::Ty::InherentTyAlias { candidates, ident, resolved_args, unresolved_args } => {
            let x = Ty::InherentTyAlias {
                candidates: convert_def_ids(candidates),
                ident: ident.name.clone(),
                resolved_args: convert_hir_ids(resolved_args),
                unresolved_args: convert_hir_ids(unresolved_args),
            };
            assert(converts(internal.model(), x));
            x
        },
        internal_ty::Ty::GenericParam(i) => Ty::GenericParam(*i),
        internal_ty::Ty::Infer(internal_ty::InferTy::TyVar(v)) => {
            let mut s = String::new();
            push_decimal(&mut s, v.0 as usize);
            assert(s@ =~= decimal(v.0 as nat));
            let x = Ty::TyVar(s);
            assert(converts(internal.model(), x));
            x
        },
        internal_ty::Ty::Infer(internal_ty::InferTy::IntVar(v)) => {
            let mut s = String::new();
            push_decimal(&mut s, v.0 as usize);
            assert(s@ =~= decimal(v.0 as nat));
            let x = Ty::IntVar(s);
            assert(converts(internal.model(), x));
            x
        },
        internal_ty::Ty::Error => Ty::Error,
    }
}

/// The signature, as the compiler hands it out.
pub fn convert_fn_sig(internal: &internal_ty::FnSig) -> (r: FnSig)
    ensures
        r.params@.len() == internal.params@.len(),
        forall|i: int| 0 <= i < internal.params@.len() ==> converts(#[trigger] tys_model(internal.params@)[i], r.params@[i]),
        converts(internal.return_ty.model(), r.return_ty),
{
    FnSig { params: convert_tys(&internal.params), return_ty: convert_ty(&internal.return_ty) }
}

/// The bound of a generic parameter, as the compiler hands it out.
pub fn convert_predicate_def(internal: &internal_ty::PredicateDef) -> (r: PredicateDef)
    ensures
        r.def_id.0 == internal.def_id.0,
        converts(internal.ty.model(), r.ty),
        r.trait_bound.0 == internal.trait_bound.0,
{
    PredicateDef {
        def_id: DefId(internal.def_id.0),
        ty: convert_ty(&internal.ty),
        trait_bound: DefId(internal.trait_bound.0),
    }
}

/// A generic parameter, as the compiler hands it out.
pub fn convert_generic_param_def(internal: &internal_ty::GenericParamDef) -> (r: GenericParamDef)
    ensures
        r.def_id.0 == internal.def_id.0,
        r.index == internal.index,
{
    GenericParamDef { def_id: DefId(internal.def_id.0), index: internal.index }
}

/// The generics of a definition, as the compiler hands them out.
pub fn convert_generics(internal: &internal_ty::Generics) -> (r: Generics)
    ensures
        r.parent matches Some(p) ==> internal.parent matches Some(q) && p.0 == q.0,
        r.parent is None <==> internal.parent is None,
        r.params@.len() == internal.params@.len(),
        forall|i: int|
            0 <= i < internal.params@.len() ==> (#[trigger] r.params@[i]).def_id.0 == internal.params@[i].def_id.0
                && r.params@[i].index == internal.params@[i].index,
{
    let parent = match internal.parent {
        Some(p) => Some(DefId(p.0)),
        None => None,
    };
    let mut params: Vec<GenericParamDef> = Vec::new();
    let mut i: usize = 0;
    while i < internal.params.len()
        invariant
            i <= internal.params@.len(),
            params@.len() == i,
            forall|j: int|
                0 <= j < i ==> (#[trigger] params@[j]).def_id.0 == internal.params@[j].def_id.0
                    && params@[j].index == internal.params@[j].index,
        decreases internal.params@.len() - i,
    {
        params.push(convert_generic_param_def(&internal.params[i]));
        i = i + 1;
    }
    Generics { parent, params }
}

#[derive(Clone, Debug, PartialEq, Eq)]
pub struct StructDef {
    pub def_id: DefId,
    pub fields: Vec<DefId>,
}

#[derive(Clone, Debug, PartialEq, Eq)]
pub struct EnumDef {
    pub def_id: DefId,
    pub variants: Vec<Variant>,
}

#[derive(Clone, Debug, PartialEq, Eq)]
pub struct Variant {
    pub def_id: DefId,
    pub fields: Vec<DefId>,
}

#[derive(Clone, Copy, Debug, PartialEq, Eq, Structural)]
pub struct TraitDef {
    pub def_id: DefId,
}

#[derive(Clone, Debug, PartialEq, Eq)]
pub struct AssocItemDef {
    pub def_id: DefId,
    pub ident: String,
}

/// The ids handed out for the given definition ids.
fn convert_def_ids(ids: &Vec<crate::resolver::defs::DefId>) -> (r: Vec<DefId>)
    ensures
        r.len() == ids.len(),
        forall|i: int| 0 <= i < ids.len() ==> (#[trigger] r@[i]).0 == ids@[i].0,
{
    let mut r: Vec<DefId> = Vec::new();
    let mut i: usize = 0;
    while i < ids.len()
        invariant
            i <= ids.len(),
            r.len() == i,
            forall|j: int| 0 <= j < i ==> (#[trigger] r@[j]).0 == ids@[j].0,
        decreases ids.len() - i,
    {
        r.push(DefId(ids[i].0));
        i = i + 1;
    }
    r
}

pub fn convert_struct_def(internal: &internal_ty::StructDef) -> (r: StructDef)
    ensures
        r.def_id.0 == internal.def_id.0,
        r.fields.len() == internal.fields.len(),
        forall|i: int| 0 <= i < internal.fields.len() ==> (#[trigger] r.fields@[i]).0 == internal.fields@[i].0,
{
    StructDef { def_id: DefId(internal.def_id.0), fields: convert_def_ids(&internal.fields) }
}

pub fn convert_variant(internal: &internal_ty::Variant) -> (r: Variant)
    ensures
        r.def_id.0 == internal.def_id.0,
        r.fields.len() == internal.fields.len(),
        forall|i: int| 0 <= i < internal.fields.len() ==> (#[trigger] r.fields@[i]).0 == internal.fields@[i].0,
{
    Variant { def_id: DefId(internal.def_id.0), fields: convert_def_ids(&internal.fields) }
}

pub fn convert_enum_def(internal: &internal_ty::EnumDef) -> (r: EnumDef)
    ensures
        r.def_id.0 == internal.def_id.0,
        r.variants.len() == internal.variants.len(),
        forall|i: int|
            0 <= i < internal.variants.len() ==> (#[trigger] r.variants@[i]).def_id.0
                == internal.variants@[i].def_id.0 && r.variants@[i].fields.len()
                == internal.variants@[i].fields.len(),
{
    let mut variants: Vec<Variant> = Vec::new();
    let mut i: usize = 0;
    while i < internal.variants.len()
        invariant
            i <= internal.variants.len(),
            variants.len() == i,
            forall|j: int|
                0 <= j < i ==> (#[trigger] variants@[j]).def_id.0 == internal.variants@[j].def_id.0
                    && variants@[j].fields.len() == internal.variants@[j].fields.len(),
        decreases internal.variants.len() - i,
    {
        variants.push(convert_variant(&internal.variants[i]));
        i = i + 1;
    }
    EnumDef { def_id: DefId(internal.def_id.0), variants }
}

pub fn convert_trait_def(internal: &internal_ty::TraitDef) -> (r: TraitDef)
    ensures
        r.def_id.0 == internal.def_id.0,
{
    TraitDef { def_id: DefId(internal.def_id.0) }
}

pub fn convert_assoc_item_def(internal: &internal_ty::AssocItemDef) -> (r: AssocItemDef)
    ensures
        r.def_id.0 == internal.def_id.0,
        r.ident@ == internal.ident.name@,
{
    AssocItemDef { def_id: DefId(internal.def_id.0), ident: internal.ident.name.clone() }
}

} // verus!
