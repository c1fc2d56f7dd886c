use crate::ast_lowerer::hir::HirId;
use crate::parser::ast::Ident;
use crate::resolver::defs::DefId;
use crate::type_checker::ty::{Const, GenericArg, InferTy, Ty};
use vstd::prelude::*;

verus! {

broadcast use vstd::std_specs::vec::group_vec_axioms;

/// A type as a mathematical value: the lists of a `Ty` become sequences.
pub enum TyModel {
    Unit,
    Bool,
    I32,
    U32,
    F64,
    Str,
    Never,
    Array(Box<TyModel>, Const),
    Slice(Box<TyModel>),
    Tuple(Seq<TyModel>),
    Ptr(Box<TyModel>),
    FnPtr(Seq<TyModel>, Box<TyModel>),
    Fn(DefId, Seq<ArgModel>),
    Struct(DefId, Seq<ArgModel>),
    Enum(DefId, Seq<ArgModel>),
    InherentTyAlias {
        candidates: Seq<DefId>,
        ident: Seq<char>,
        resolved_args: Seq<HirId>,
        unresolved_args: Seq<HirId>,
    },
    GenericParam(usize),
    Infer(InferTy),
    Error,
}

/// A generic argument as a mathematical value.
pub enum ArgModel {
    Type(TyModel),
    Const(Const),
}

/// The model of each type of a list.
pub open spec fn tys_model(v: Seq<Ty>) -> Seq<TyModel>
    decreases v,
{
    Seq::new(
        v.len(),
        |i: int|
            if 0 <= i < v.len() {
                proof {
                    assert(decreases_to!(v => v[i]));
                }
                v[i].model()
            } else {
                TyModel::Error
            },
    )
}

/// The model of each generic argument of a list.
pub open spec fn args_model(v: Seq<GenericArg>) -> Seq<ArgModel>
    decreases v,
{
    Seq::new(
        v.len(),
        |i: int|
            if 0 <= i < v.len() {
                proof {
                    assert(decreases_to!(v => v[i]));
                }
                v[i].model()
            } else {
                ArgModel::Const(Const::Expr(HirId(0)))
            },
    )
}

impl Ty {
    pub open spec fn model(self) -> TyModel
        decreases self,
    {
        match self {
            Ty::Unit => TyModel::Unit,
            Ty::Bool => TyModel::Bool,
            Ty::I32 => TyModel::I32,
            Ty::U32 => TyModel::U32,
            Ty::F64 => TyModel::F64,
            Ty::Str => TyModel::Str,
            Ty::Never => TyModel::Never,
            Ty::Array(t, c) => TyModel::Array(Box::new((*t).model()), c),
            Ty::Slice(t) => TyModel::Slice(Box::new((*t).model())),
            Ty::Tuple(v) => TyModel::Tuple(tys_model(v@)),
            Ty::Ptr(t) => TyModel::Ptr(Box::new((*t).model())),
            Ty::FnPtr(v, r) => TyModel::FnPtr(tys_model(v@), Box::new((*r).model())),
            Ty::Fn(d, a) => TyModel::Fn(d, args_model(a@)),
            Ty::Struct(d, a) => TyModel::Struct(d, args_model(a@)),
            Ty::Enum(d, a) => TyModel::Enum(d, args_model(a@)),
            Ty::InherentTyAlias { candidates, ident, resolved_args, unresolved_args } => TyModel::InherentTyAlias {
                candidates: candidates@,
                ident: ident.name@,
                resolved_args: resolved_args@,
                unresolved_args: unresolved_args@,
            },
            Ty::GenericParam(i) => TyModel::GenericParam(i),
            Ty::Infer(v) => TyModel::Infer(v),
            Ty::Error => TyModel::Error,
        }
    }
}

impl GenericArg {
    pub open spec fn model(self) -> ArgModel
        decreases self,
    {
        match self {
            GenericArg::Type(t) => ArgModel::Type(t.model()),
            GenericArg::Const(c) => ArgModel::Const(c),
        }
    }
}

fn clone_def_ids(v: &Vec<DefId>) -> (r: Vec<DefId>)
    ensures
        r@ == v@,
{
    let mut out: Vec<DefId> = Vec::new();
    let mut i: usize = 0;
    while i < v.len()
        invariant
            i <= v.len(),
            out@ == v@.take(i as int),
        decreases v.len() - i,
    {
        out.push(v[i]);
        i = i + 1;
        assert(out@ =~= v@.take(i as int));
    }
    assert(v@.take(v.len() as int) =~= v@);
    out
}

fn clone_hir_ids(v: &Vec<HirId>) -> (r: Vec<HirId>)
    ensures
        r@ == v@,
{
    let mut out: Vec<HirId> = Vec::new();
    let mut i: usize = 0;
    while i < v.len()
        invariant
            i <= v.len(),
            out@ == v@.take(i as int),
        decreases v.len() - i,
    {
        out.push(v[i]);
        i = i + 1;
        assert(out@ =~= v@.take(i as int));
    }
    assert(v@.take(v.len() as int) =~= v@);
    out
}

/// A copy of a list of types.
pub fn clone_tys(v: &Vec<Ty>) -> (r: Vec<Ty>)
    ensures
        tys_model(r@) == tys_model(v@),
    decreases v@,
{
    let mut out: Vec<Ty> = Vec::new();
    let mut i: usize = 0;
    while i < v.len()
        invariant
            i <= v.len(),
            out@.len() == i,
            forall|j: int| 0 <= j < i ==> (#[trigger] out@[j]).model() == v@[j].model(),
        decreases v.len() - i,
    {
        proof {
            assert(decreases_to!(v@ => v@[i as int]));
        }
        out.push(clone_ty(&v[i]));
        i = i + 1;
    }
    assert(tys_model(out@) =~= tys_model(v@));
    out
}

/// A copy of a list of generic arguments.
pub fn clone_args(v: &Vec<GenericArg>) -> (r: Vec<GenericArg>)
    ensures
        args_model(r@) == args_model(v@),
    decreases v@,
{
    let mut out: Vec<GenericArg> = Vec::new();
    let mut i: usize = 0;
    while i < v.len()
        invariant
            i <= v.len(),
            out@.len() == i,
            forall|j: int| 0 <= j < i ==> (#[trigger] out@[j]).model() == v@[j].model(),
        decreases v.len() - i,
    {
        proof {
            assert(decreases_to!(v@ => v@[i as int]));
        }
        out.push(clone_arg(&v[i]));
        i = i + 1;
    }
    assert(args_model(out@) =~= args_model(v@));
    out
}

/// A copy of a generic argument.
pub fn clone_arg(a: &GenericArg) -> (r: GenericArg)
    ensures
        r.model() == a.model(),
    decreases a,
{
    match a {
        GenericArg::Type(t) => GenericArg::Type(clone_ty(t)),
        GenericArg::Const(c) => GenericArg::Const(*c),
    }
}

/// A copy of a type.
pub fn clone_ty(t: &Ty) -> (r: Ty)
    ensures
        r.model() == t.model(),
    decreases t,
{
    match t {
        Ty::Unit => Ty::Unit,
        Ty::Bool => Ty::Bool,
        Ty::I32 => Ty::I32,
        Ty::U32 => Ty::U32,
        Ty::F64 => Ty::F64,
        Ty::Str => Ty::Str,
        Ty::Never => Ty::Never,
        Ty::Array(e, c) => Ty::Array(Box::new(clone_ty(e)), *c),
        Ty::Slice(e) => Ty::Slice(Box::new(clone_ty(e))),
        Ty::Tuple(v) => {
            proof {
                assert(decreases_to!(*t => v@));
            }
            Ty::Tuple(clone_tys(v))
        },
        Ty::Ptr(e) => Ty::Ptr(Box::new(clone_ty(e))),
        Ty::FnPtr(v, r) => {
            proof {
                assert(decreases_to!(*t => v@));
            }
            Ty::FnPtr(clone_tys(v), Box::new(clone_ty(r)))
        },
        Ty::Fn(d, a) => {
            proof {
                assert(decreases_to!(*t => a@));
            }
            Ty::Fn(*d, clone_args(a))
        },
        Ty::Struct(d, a) => {
            proof {
                assert(decreases_to!(*t => a@));
            }
            Ty::Struct(*d, clone_args(a))
        },
        Ty::Enum(d, a) => {
            proof {
                assert(decreases_to!(*t => a@));
            }
            Ty::Enum(*d, clone_args(a))
        },
        Ty::InherentTyAlias { candidates, ident, resolved_args, unresolved_args } => Ty::InherentTyAlias {
            candidates: clone_def_ids(candidates),
            ident: Ident::new(ident.name.clone()),
            resolved_args: clone_hir_ids(resolved_args),
            unresolved_args: clone_hir_ids(unresolved_args),
        },
        Ty::GenericParam(i) => Ty::GenericParam(*i),
        Ty::Infer(v) => Ty::Infer(*v),
        Ty::Error => Ty::Error,
    }
}

} // verus!
