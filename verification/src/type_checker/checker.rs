use crate::span::Span;
use crate::type_checker::error::TypeCheckerError;
use crate::type_checker::infer::{
    args_of, deep, deep_arg, deep_arg_ok, deep_ok, elems_of, errors_model, infer_var, inst, inst_args, inst_args_ok, inst_ok,
    lemma_shallow_unbound, lemma_unify_args_not_ok, lemma_unify_tys_not_ok, map_model, resolve_top, same_prim,
    shallow, unify, unify_args, unify_tys, UnifyState, bind, mismatch, err_model,
};
use crate::type_checker::model::{args_model, clone_arg, clone_ty, tys_model, ArgModel, TyModel};
use crate::type_checker::pretty::{pretty, pretty_print_ty};
use crate::ast_lowerer::hir::{HirNode, PathSegment};
use crate::resolver::defs::DefId;
use crate::type_checker::ty::{CollectedTypes, GenericArg, GenericParamDef, InferTy, Ty, TyVarId};
use std::collections::HashMap;
use vstd::prelude::*;

verus! {

broadcast use {vstd::std_specs::hash::group_hash_axioms, vstd::std_specs::vec::group_vec_axioms};

/// Where a path with generic arguments stands.
#[derive(Clone, Copy, Debug, PartialEq, Eq, Structural)]
pub enum GenericArgPosition {
    /// A path used in type position (e.g. `let a: Option<i32> = ...`).
    /// Omitting generic args here is always an arity error.
    Type,
    /// A path used in value/expression position (e.g. `Option::Some(3)`).
    /// Omitting generic args here will infer them.
    Value,
}

/// The state of type inference: what each inference variable is bound to
/// (keyed by its number), the type of each lowered node (keyed by the
/// number inside its id), and the number of the next variable.
pub struct InferCtxt {
    pub type_var_map: HashMap<u32, Ty>,
    pub types: HashMap<usize, Ty>,
    pub current_ty_var: u32,
}

impl InferCtxt {
    pub fn new() -> (c: InferCtxt)
        ensures
            c.type_var_map@ == Map::<u32, Ty>::empty(),
            c.types@ == Map::<usize, Ty>::empty(),
            c.current_ty_var == 0,
    {
        InferCtxt { type_var_map: HashMap::new(), types: HashMap::new(), current_ty_var: 0 }
    }

    /// A fresh type variable.
    pub fn next_ty_var(&mut self) -> (t: Ty)
        requires
            old(self).current_ty_var < u32::MAX,
        ensures
            t == Ty::Infer(InferTy::TyVar(TyVarId(old(self).current_ty_var))),
            final(self).current_ty_var == old(self).current_ty_var + 1,
            final(self).type_var_map@ == old(self).type_var_map@,
            final(self).types@ == old(self).types@,
    {
        let ty_var = Ty::Infer(InferTy::TyVar(TyVarId::new(self.current_ty_var)));
        self.current_ty_var = self.current_ty_var + 1;
        ty_var
    }

    /// A fresh integer variable: a type known to be an integer type.
    pub fn next_int_var(&mut self) -> (t: Ty)
        requires
            old(self).current_ty_var < u32::MAX,
        ensures
            t == Ty::Infer(InferTy::IntVar(TyVarId(old(self).current_ty_var))),
            final(self).current_ty_var == old(self).current_ty_var + 1,
            final(self).type_var_map@ == old(self).type_var_map@,
            final(self).types@ == old(self).types@,
    {
        let ty_var = Ty::Infer(InferTy::IntVar(TyVarId::new(self.current_ty_var)));
        self.current_ty_var = self.current_ty_var + 1;
        ty_var
    }
}

impl Default for InferCtxt {
    fn default() -> (c: InferCtxt)
        ensures
            c.type_var_map@ == Map::<u32, Ty>::empty(),
            c.types@ == Map::<usize, Ty>::empty(),
            c.current_ty_var == 0,
    {
        InferCtxt::new()
    }
}

impl InferCtxt {
    /// The bindings of the inference variables, as mathematical types.
    pub open spec fn model(&self) -> Map<u32, TyModel> {
        map_model(self.type_var_map@)
    }

    proof fn lemma_model_len(&self)
        ensures
            self.model().len() == self.type_var_map@.len(),
    {
        assert(self.model().dom() =~= self.type_var_map@.dom());
    }

    /// `ty` with bound inference variables replaced by what they are bound
    /// to, at the top only.
    pub fn shallow_resolve(&self, ty: Ty) -> (r: Ty)
        ensures
            r.model() == resolve_top(self.model(), ty.model()),
    {
        proof {
            self.lemma_model_len();
        }
        let ghost m = self.model();
        let n = self.type_var_map.len();
        let mut cur = ty;
        let mut k: usize = 0;
        while k < n
            invariant
                k <= n,
                n == m.len(),
                m == self.model(),
                shallow(m, cur.model(), (n - k) as nat) == resolve_top(m, ty.model()),
            decreases n - k,
        {
            let var = match &cur {
                Ty::Infer(InferTy::TyVar(v)) => Some(v.0),
                Ty::Infer(InferTy::IntVar(v)) => Some(v.0),
                _ => None,
            };
            match var {
                None => {
                    proof {
                        lemma_shallow_unbound(m, cur.model(), (n - k) as nat);
                    }
                    return cur;
                },
                Some(v) => {
                    match self.type_var_map.get(&v) {
                        None => {
                            proof {
                                lemma_shallow_unbound(m, cur.model(), (n - k) as nat);
                            }
                            return cur;
                        },
                        Some(t) => {
                            proof {
                                assert(infer_var(cur.model()) == Some(v));
                                assert(m[v] == t.model());
                            }
                            cur = clone_ty(t);
                            k = k + 1;
                        },
                    }
                },
            }
        }
        cur
    }

    fn deeply_resolve_tys(&self, v: &Vec<Ty>, depth: usize) -> (r: Vec<Ty>)
        requires
            forall|i: int| 0 <= i < v@.len() ==> deep_ok(self.model(), #[trigger] v@[i].model(), depth as nat),
        ensures
            r@.len() == v@.len(),
            forall|i: int|
                0 <= i < v@.len() ==> (#[trigger] r@[i]).model() == deep(self.model(), v@[i].model(), depth as nat),
        decreases depth, 1nat,
    {
        let mut out: Vec<Ty> = Vec::new();
        let mut i: usize = 0;
        while i < v.len()
            invariant
                i <= v.len(),
                out@.len() == i,
                forall|j: int| 0 <= j < v@.len() ==> deep_ok(self.model(), #[trigger] v@[j].model(), depth as nat),
                forall|j: int|
                    0 <= j < i ==> (#[trigger] out@[j]).model() == deep(self.model(), v@[j].model(), depth as nat),
            decreases v.len() - i,
        {
            let t = clone_ty(&v[i]);
            out.push(self.deeply_resolve_depth(t, depth));
            i = i + 1;
        }
        out
    }

    fn deeply_resolve_args(&self, v: &Vec<GenericArg>, depth: usize) -> (r: Vec<GenericArg>)
        requires
            forall|i: int| 0 <= i < v@.len() ==> deep_arg_ok(self.model(), #[trigger] v@[i].model(), depth as nat),
        ensures
            r@.len() == v@.len(),
            forall|i: int|
                0 <= i < v@.len() ==> (#[trigger] r@[i]).model() == deep_arg(self.model(), v@[i].model(), depth as nat),
        decreases depth, 1nat,
    {
        let mut out: Vec<GenericArg> = Vec::new();
        let mut i: usize = 0;
        while i < v.len()
            invariant
                i <= v.len(),
                out@.len() == i,
                forall|j: int| 0 <= j < v@.len() ==> deep_arg_ok(self.model(), #[trigger] v@[j].model(), depth as nat),
                forall|j: int|
                    0 <= j < i ==> (#[trigger] out@[j]).model() == deep_arg(self.model(), v@[j].model(), depth as nat),
            decreases v.len() - i,
        {
            let a = match &v[i] {
                GenericArg::Type(t) => GenericArg::Type(self.deeply_resolve_depth(clone_ty(t), depth)),
                GenericArg::Const(_) => {
                    proof {
                        assert(!deep_arg_ok(self.model(), v@[i as int].model(), depth as nat));
                    }
                    clone_arg(&v[i])
                },
            };
            out.push(a);
            i = i + 1;
        }
        out
    }

    fn deeply_resolve_depth(&self, ty: Ty, depth: usize) -> (r: Ty)
        requires
            deep_ok(self.model(), ty.model(), depth as nat),
        ensures
            r.model() == deep(self.model(), ty.model(), depth as nat),
        decreases depth, 0nat,
    {
        let ghost m = self.model();
        let r = self.shallow_resolve(ty);
        if depth == 0 {
            return r;
        }
        let d = depth - 1;
        let ghost rm = r.model();
        assert(rm == resolve_top(m, ty.model()));
        let out = match r {
            Ty::Array(e, c) => {
                let x = Ty::Array(Box::new(self.deeply_resolve_depth(*e, d)), c);
                assert(x.model() == deep(m, ty.model(), depth as nat));
                x
            },
            Ty::Slice(e) => Ty::Slice(Box::new(self.deeply_resolve_depth(*e, d))),
            Ty::Tuple(ts) => {
                proof {
                    assert forall|i: int| 0 <= i < ts@.len() implies deep_ok(m, #[trigger] ts@[i].model(), d as nat) by {
                        assert(tys_model(ts@)[i] == ts@[i].model());
                    }
                }
                let rs = self.deeply_resolve_tys(&ts, d);
                proof {
                    let tm = tys_model(ts@);
                    assert(tys_model(rs@) =~= elems_of(deep(m, ty.model(), depth as nat)));
                }
                let x = Ty::Tuple(rs);
                assert(x.model() == deep(m, ty.model(), depth as nat));
                x
            },
            Ty::Ptr(e) => Ty::Ptr(Box::new(self.deeply_resolve_depth(*e, d))),
            Ty::FnPtr(ps, ret) => {
                proof {
                    assert forall|i: int| 0 <= i < ps@.len() implies deep_ok(m, #[trigger] ps@[i].model(), d as nat) by {
                        assert(tys_model(ps@)[i] == ps@[i].model());
                    }
                }
                let rs = self.deeply_resolve_tys(&ps, d);
                proof {
                    let pm = tys_model(ps@);
                    assert(tys_model(rs@) =~= elems_of(deep(m, ty.model(), depth as nat)));
                }
                Ty::FnPtr(rs, Box::new(self.deeply_resolve_depth(*ret, d)))
            },
            Ty::Fn(id, a) => {
                proof {
                    assert forall|i: int| 0 <= i < a@.len() implies deep_arg_ok(m, #[trigger] a@[i].model(), d as nat) by {
                        assert(args_model(a@)[i] == a@[i].model());
                    }
                }
                let ra = self.deeply_resolve_args(&a, d);
                proof {
                    let am = args_model(a@);
                    assert(args_model(ra@) =~= args_of(deep(m, ty.model(), depth as nat)));
                }
                Ty::Fn(id, ra)
            },
            Ty::Struct(id, a) => {
                proof {
                    assert forall|i: int| 0 <= i < a@.len() implies deep_arg_ok(m, #[trigger] a@[i].model(), d as nat) by {
                        assert(args_model(a@)[i] == a@[i].model());
                    }
                }
                let ra = self.deeply_resolve_args(&a, d);
                proof {
                    let am = args_model(a@);
                    assert(args_model(ra@) =~= args_of(deep(m, ty.model(), depth as nat)));
                }
                Ty::Struct(id, ra)
            },
            Ty::Enum(id, a) => {
                proof {
                    assert forall|i: int| 0 <= i < a@.len() implies deep_arg_ok(m, #[trigger] a@[i].model(), d as nat) by {
                        assert(args_model(a@)[i] == a@[i].model());
                    }
                }
                let ra = self.deeply_resolve_args(&a, d);
                proof {
                    let am = args_model(a@);
                    assert(args_model(ra@) =~= args_of(deep(m, ty.model(), depth as nat)));
                }
                Ty::Enum(id, ra)
            },
            other => other,
        };
        assert(out.model() == deep(m, ty.model(), depth as nat));
        out
    }

    /// `ty` with every inference variable, at any depth, replaced by what
    /// it is bound to.
    pub fn deeply_resolve(&self, ty: Ty) -> (r: Ty)
        requires
            deep_ok(self.model(), ty.model(), usize::MAX as nat),
        ensures
            r.model() == deep(self.model(), ty.model(), usize::MAX as nat),
    {
        self.deeply_resolve_depth(ty, usize::MAX)
    }
}

/// The state of type checking: the types collected from the definitions,
/// the inference state, the return type of the function being checked,
/// and the errors found.
pub struct TypeChecker {
    pub collected_types: CollectedTypes,
    pub infer_ctxt: InferCtxt,
    pub return_ty: Option<Ty>,
    pub errors: Vec<TypeCheckerError>,
}

impl TypeChecker {
    pub fn new(collected_types: CollectedTypes) -> (c: TypeChecker)
        ensures
            c.collected_types == collected_types,
            c.infer_ctxt.type_var_map@ == Map::<u32, Ty>::empty(),
            c.infer_ctxt.types@ == Map::<usize, Ty>::empty(),
            c.infer_ctxt.current_ty_var == 0,
            c.return_ty is None,
            c.errors@.len() == 0,
    {
        TypeChecker { collected_types, infer_ctxt: InferCtxt::new(), return_ty: None, errors: Vec::new() }
    }

    /// What unification works on, read off the checker.
    pub open spec fn ustate(&self) -> UnifyState {
        UnifyState { map: self.infer_ctxt.model(), errs: errors_model(self.errors@), ok: true }
    }

    /// `ty` with each generic parameter `i` replaced by the type `substs[i]`.
    pub fn instantiate(&self, ty: &Ty, substs: &Vec<GenericArg>) -> (r: Ty)
        requires
            inst_ok(ty.model(), args_model(substs@)),
        ensures
            r.model() == inst(ty.model(), args_model(substs@)),
        decreases ty,
    {
        let ghost s = args_model(substs@);
        match ty {
            Ty::Unit => Ty::Unit,
            Ty::Bool => Ty::Bool,
            Ty::I32 => Ty::I32,
            Ty::U32 => Ty::U32,
            Ty::F64 => Ty::F64,
            Ty::Str => Ty::Str,
            Ty::Never => Ty::Never,
            Ty::Infer(v) => Ty::Infer(*v),
            Ty::Error => Ty::Error,
            Ty::Array(e, c) => {
                proof {
                    assert(false);
                }
                Ty::Array(Box::new(clone_ty(e)), *c)
            },
            Ty::InherentTyAlias { .. } => {
                proof {
                    assert(false);
                }
                clone_ty(ty)
            },
            Ty::Slice(e) => Ty::Slice(Box::new(self.instantiate(e, substs))),
            Ty::Ptr(e) => Ty::Ptr(Box::new(self.instantiate(e, substs))),
            Ty::Tuple(v) => {
                proof {
                    assert(decreases_to!(*ty => v@));
                }
                let r = self.instantiate_tys(v, substs);
                proof {
                    assert(tys_model(r@) =~= elems_of(inst(ty.model(), s)));
                }
                Ty::Tuple(r)
            },
            Ty::FnPtr(v, ret) => {
                proof {
                    assert(decreases_to!(*ty => v@));
                }
                let r = self.instantiate_tys(v, substs);
                proof {
                    assert(tys_model(r@) =~= elems_of(inst(ty.model(), s)));
                }
                Ty::FnPtr(r, Box::new(self.instantiate(ret, substs)))
            },
            Ty::Fn(d, a) => {
                proof {
                    assert(decreases_to!(*ty => a@));
                }
                Ty::Fn(*d, self.instantiate_args(a, substs))
            },
            Ty::Struct(d, a) => {
                proof {
                    assert(decreases_to!(*ty => a@));
                }
                Ty::Struct(*d, self.instantiate_args(a, substs))
            },
            Ty::Enum(d, a) => {
                proof {
                    assert(decreases_to!(*ty => a@));
                }
                Ty::Enum(*d, self.instantiate_args(a, substs))
            },
            Ty::GenericParam(i) => {
                match &substs[*i] {
                    GenericArg::Type(t) => {
                        proof {
                            assert(s[*i as int] == substs@[*i as int].model());
                        }
                        clone_ty(t)
                    },
                    GenericArg::Const(_) => {
                        proof {
                            assert(s[*i as int] == substs@[*i as int].model());
                        }
                        clone_ty(ty)
                    },
                }
            },
        }
    }

    fn instantiate_tys(&self, v: &Vec<Ty>, substs: &Vec<GenericArg>) -> (r: Vec<Ty>)
        requires
            forall|i: int| 0 <= i < v@.len() ==> inst_ok(#[trigger] tys_model(v@)[i], args_model(substs@)),
        ensures
            r@.len() == v@.len(),
            forall|i: int|
                0 <= i < v@.len() ==> (#[trigger] r@[i]).model() == inst(v@[i].model(), args_model(substs@)),
        decreases v@,
    {
        let mut out: Vec<Ty> = Vec::new();
        let mut i: usize = 0;
        while i < v.len()
            invariant
                i <= v.len(),
                out@.len() == i,
                forall|j: int| 0 <= j < v@.len() ==> inst_ok(#[trigger] tys_model(v@)[j], args_model(substs@)),
                forall|j: int|
                    0 <= j < i ==> (#[trigger] out@[j]).model() == inst(v@[j].model(), args_model(substs@)),
            decreases v.len() - i,
        {
            proof {
                assert(decreases_to!(v@ => v@[i as int]));
                assert(tys_model(v@)[i as int] == v@[i as int].model());
            }
            out.push(self.instantiate(&v[i], substs));
            i = i + 1;
        }
        out
    }

    fn instantiate_args(&self, v: &Vec<GenericArg>, substs: &Vec<GenericArg>) -> (r: Vec<GenericArg>)
        requires
            inst_args_ok(args_model(v@), args_model(substs@)),
        ensures
            args_model(r@) == inst_args(args_model(v@), args_model(substs@)),
        decreases v@,
    {
        let ghost s = args_model(substs@);
        let mut out: Vec<GenericArg> = Vec::new();
        let mut i: usize = 0;
        while i < v.len()
            invariant
                i <= v.len(),
                out@.len() == i,
                s == args_model(substs@),
                inst_args_ok(args_model(v@), s),
                forall|j: int| 0 <= j < i ==> (#[trigger] out@[j]).model() == inst_args(args_model(v@), s)[j],
            decreases v.len() - i,
        {
            proof {
                assert(decreases_to!(v@ => v@[i as int]));
                assert(args_model(v@)[i as int] == v@[i as int].model());
            }
            out.push(self.instantiate_generic_arg(&v[i], substs));
            i = i + 1;
        }
        assert(args_model(out@) =~= inst_args(args_model(v@), s));
        out
    }

    /// A generic argument with each generic parameter `i` replaced by the
    /// type `substs[i]`.
    pub fn instantiate_generic_arg(&self, arg: &GenericArg, substs: &Vec<GenericArg>) -> (r: GenericArg)
        requires
            arg.model() matches ArgModel::Type(t) && inst_ok(t, args_model(substs@)),
        ensures
            arg.model() matches ArgModel::Type(t) && r.model() == ArgModel::Type(inst(t, args_model(substs@))),
        decreases arg,
    {
        match arg {
            GenericArg::Type(t) => GenericArg::Type(self.instantiate(t, substs)),
            GenericArg::Const(c) => GenericArg::Const(*c),
        }
    }
}

impl TypeChecker {
    fn push_mismatch(&mut self, found: &Ty, expected: &Ty)
        ensures
            final(self).ustate() == mismatch(old(self).ustate(), found.model(), expected.model()),
            final(self).infer_ctxt == old(self).infer_ctxt,
            final(self).collected_types == old(self).collected_types,
            final(self).return_ty == old(self).return_ty,
            old(self).errors@.len() <= final(self).errors@.len(),
            forall|k: int| 0 <= k < old(self).errors@.len() ==> #[trigger] final(self).errors@[k] == old(self).errors@[k],
    {
        let expected = pretty_print_ty(expected);
        let found = pretty_print_ty(found);
        let e = TypeCheckerError::TypeMismatch {
            expected_span: Span::new(0, 0),
            found_span: Span::new(0, 0),
            expected,
            found,
        };
        self.errors.push(e);
        assert(errors_model(self.errors@) =~= errors_model(old(self).errors@).push(err_model(e)));
    }

    fn bind(&mut self, v: u32, t: Ty)
        ensures
            final(self).ustate() == bind(old(self).ustate(), v, t.model()),
            final(self).errors == old(self).errors,
            final(self).infer_ctxt.types == old(self).infer_ctxt.types,
            final(self).infer_ctxt.current_ty_var == old(self).infer_ctxt.current_ty_var,
            final(self).collected_types == old(self).collected_types,
            final(self).return_ty == old(self).return_ty,
    {
        self.infer_ctxt.type_var_map.insert(v, t);
        assert(self.infer_ctxt.model() =~= old(self).infer_ctxt.model().insert(v, t.model()));
    }

    fn unify_tys(&mut self, fs: &Vec<Ty>, es: &Vec<Ty>, depth: usize)
        requires
            unify_tys(old(self).ustate(), tys_model(fs@), tys_model(es@), depth as nat).ok,
        ensures
            final(self).ustate() == unify_tys(old(self).ustate(), tys_model(fs@), tys_model(es@), depth as nat),
            final(self).infer_ctxt.types == old(self).infer_ctxt.types,
            final(self).infer_ctxt.current_ty_var == old(self).infer_ctxt.current_ty_var,
            final(self).collected_types == old(self).collected_types,
            final(self).return_ty == old(self).return_ty,
            old(self).errors@.len() <= final(self).errors@.len(),
            forall|k: int| 0 <= k < old(self).errors@.len() ==> #[trigger] final(self).errors@[k] == old(self).errors@[k],
        decreases depth, 1nat,
    {
        let ghost fm = tys_model(fs@);
        let ghost em = tys_model(es@);
        let ghost target = unify_tys(old(self).ustate(), fm, em, depth as nat);
        let n = if fs.len() < es.len() {
            fs.len()
        } else {
            es.len()
        };
        let mut i: usize = 0;
        assert(fm.skip(0) =~= fm);
        assert(em.skip(0) =~= em);
        while i < n
            invariant
                i <= n,
                n <= fs.len(),
                n <= es.len(),
                n == fs.len() || n == es.len(),
                fm == tys_model(fs@),
                em == tys_model(es@),
                target.ok,
                unify_tys(self.ustate(), fm.skip(i as int), em.skip(i as int), depth as nat) == target,
                self.infer_ctxt.types == old(self).infer_ctxt.types,
                self.infer_ctxt.current_ty_var == old(self).infer_ctxt.current_ty_var,
                self.collected_types == old(self).collected_types,
                self.return_ty == old(self).return_ty,
                old(self).errors@.len() <= self.errors@.len(),
                forall|k: int| 0 <= k < old(self).errors@.len() ==> #[trigger] self.errors@[k] == old(self).errors@[k],
            decreases n - i,
        {
            let ghost st = self.ustate();
            proof {
                assert(fm.skip(i as int).drop_first() =~= fm.skip(i + 1));
                assert(em.skip(i as int).drop_first() =~= em.skip(i + 1));
                assert(fm.skip(i as int)[0] == fs@[i as int].model());
                assert(em.skip(i as int)[0] == es@[i as int].model());
                lemma_unify_tys_not_ok(
                    unify(st, fs@[i as int].model(), es@[i as int].model(), depth as nat),
                    fm.skip(i + 1),
                    em.skip(i + 1),
                    depth as nat,
                );
            }
            self.unify_depth(clone_ty(&fs[i]), clone_ty(&es[i]), depth);
            i = i + 1;
        }
        proof {
            assert(fm.skip(n as int).len() == 0 || em.skip(n as int).len() == 0);
        }
    }

    fn unify_args(&mut self, fs: &Vec<GenericArg>, es: &Vec<GenericArg>, depth: usize)
        requires
            unify_args(old(self).ustate(), args_model(fs@), args_model(es@), depth as nat).ok,
        ensures
            final(self).ustate() == unify_args(old(self).ustate(), args_model(fs@), args_model(es@), depth as nat),
            final(self).infer_ctxt.types == old(self).infer_ctxt.types,
            final(self).infer_ctxt.current_ty_var == old(self).infer_ctxt.current_ty_var,
            final(self).collected_types == old(self).collected_types,
            final(self).return_ty == old(self).return_ty,
            old(self).errors@.len() <= final(self).errors@.len(),
            forall|k: int| 0 <= k < old(self).errors@.len() ==> #[trigger] final(self).errors@[k] == old(self).errors@[k],
        decreases depth, 1nat,
    {
        let ghost fm = args_model(fs@);
        let ghost em = args_model(es@);
        let ghost target = unify_args(old(self).ustate(), fm, em, depth as nat);
        let n = if fs.len() < es.len() {
            fs.len()
        } else {
            es.len()
        };
        let mut i: usize = 0;
        assert(fm.skip(0) =~= fm);
        assert(em.skip(0) =~= em);
        while i < n
            invariant
                i <= n,
                n <= fs.len(),
                n <= es.len(),
                n == fs.len() || n == es.len(),
                fm == args_model(fs@),
                em == args_model(es@),
                target.ok,
                unify_args(self.ustate(), fm.skip(i as int), em.skip(i as int), depth as nat) == target,
                self.infer_ctxt.types == old(self).infer_ctxt.types,
                self.infer_ctxt.current_ty_var == old(self).infer_ctxt.current_ty_var,
                self.collected_types == old(self).collected_types,
                self.return_ty == old(self).return_ty,
                old(self).errors@.len() <= self.errors@.len(),
                forall|k: int| 0 <= k < old(self).errors@.len() ==> #[trigger] self.errors@[k] == old(self).errors@[k],
            decreases n - i,
        {
            let ghost st = self.ustate();
            proof {
                assert(fm.skip(i as int).drop_first() =~= fm.skip(i + 1));
                assert(em.skip(i as int).drop_first() =~= em.skip(i + 1));
                assert(fm.skip(i as int)[0] == fs@[i as int].model());
                assert(em.skip(i as int)[0] == es@[i as int].model());
            }
            match (&fs[i], &es[i]) {
                (GenericArg::Type(a), GenericArg::Type(b)) => {
                    proof {
                        lemma_unify_args_not_ok(
                            unify(st, a.model(), b.model(), depth as nat),
                            fm.skip(i + 1),
                            em.skip(i + 1),
                            depth as nat,
                        );
                    }
                    self.unify_depth(clone_ty(a), clone_ty(b), depth);
                },
                _ => {
                    proof {
                        lemma_unify_args_not_ok(UnifyState { ok: false, ..st }, fm.skip(i + 1), em.skip(i + 1), depth as nat);
                    }
                },
            }
            i = i + 1;
        }
        proof {
            assert(fm.skip(n as int).len() == 0 || em.skip(n as int).len() == 0);
        }
    }

    fn unify_depth(&mut self, found: Ty, expected: Ty, depth: usize)
        requires
            unify(old(self).ustate(), found.model(), expected.model(), depth as nat).ok,
        ensures
            final(self).ustate() == unify(old(self).ustate(), found.model(), expected.model(), depth as nat),
            final(self).infer_ctxt.types == old(self).infer_ctxt.types,
            final(self).infer_ctxt.current_ty_var == old(self).infer_ctxt.current_ty_var,
            final(self).collected_types == old(self).collected_types,
            final(self).return_ty == old(self).return_ty,
            old(self).errors@.len() <= final(self).errors@.len(),
            forall|k: int| 0 <= k < old(self).errors@.len() ==> #[trigger] final(self).errors@[k] == old(self).errors@[k],
        decreases depth, 0nat,
    {
        let ghost st = self.ustate();
        let f = self.infer_ctxt.shallow_resolve(found);
        let e = self.infer_ctxt.shallow_resolve(expected);
        let prim = match (&f, &e) {
            (Ty::I32, Ty::I32) => true,
            (Ty::U32, Ty::U32) => true,
            (Ty::F64, Ty::F64) => true,
            (Ty::Str, Ty::Str) => true,
            (Ty::Bool, Ty::Bool) => true,
            (Ty::Unit, Ty::Unit) => true,
            _ => false,
        };
        assert(prim == same_prim(f.model(), e.model()));
        if prim {
            return;
        }
        match (&f, &e) {
            (Ty::Infer(InferTy::IntVar(a)), Ty::Infer(InferTy::IntVar(_))) => {
                let t = clone_ty(&e);
                self.bind(a.0, t);
            },
            (Ty::Infer(InferTy::TyVar(a)), _) => {
                let t = clone_ty(&e);
                self.bind(a.0, t);
            },
            (_, Ty::Infer(InferTy::TyVar(b))) => {
                let t = clone_ty(&f);
                self.bind(b.0, t);
            },
            (Ty::Infer(InferTy::IntVar(a)), Ty::I32) => {
                self.bind(a.0, Ty::I32);
            },
            (Ty::I32, Ty::Infer(InferTy::IntVar(b))) => {
                self.bind(b.0, Ty::I32);
            },
            (Ty::Infer(InferTy::IntVar(a)), Ty::U32) => {
                self.bind(a.0, Ty::U32);
            },
            (Ty::U32, Ty::Infer(InferTy::IntVar(b))) => {
                self.bind(b.0, Ty::U32);
            },
            (Ty::Tuple(fs), Ty::Tuple(es)) => {
                if depth > 0 {
                    self.unify_tys(fs, es, depth - 1);
                }
            },
            (Ty::Struct(d1, a1), Ty::Struct(d2, a2)) => {
                if d1.0 != d2.0 {
                    self.push_mismatch(&f, &e);
                } else if depth > 0 {
                    self.unify_args(a1, a2, depth - 1);
                }
            },
            (Ty::Enum(d1, a1), Ty::Enum(d2, a2)) => {
                if d1.0 != d2.0 {
                    self.push_mismatch(&f, &e);
                } else if depth > 0 {
                    self.unify_args(a1, a2, depth - 1);
                }
            },
            (Ty::GenericParam(i), Ty::GenericParam(j)) => {
                if *i != *j {
                    proof {
                        assert(false);
                    }
                }
            },
            _ => {
                self.push_mismatch(&f, &e);
            },
        }
    }

    /// Unifies the type found with the type expected: both are resolved at
    /// the top; equal primitive types agree; an unbound variable is bound
    /// to the other side; tuples, and structs or enums of one definition,
    /// unify part by part; anything else is recorded as a mismatch.
    pub fn unify(&mut self, found: Ty, expected: Ty)
        requires
            unify(old(self).ustate(), found.model(), expected.model(), usize::MAX as nat).ok,
        ensures
            final(self).ustate() == unify(old(self).ustate(), found.model(), expected.model(), usize::MAX as nat),
            final(self).infer_ctxt.types == old(self).infer_ctxt.types,
            final(self).infer_ctxt.current_ty_var == old(self).infer_ctxt.current_ty_var,
            final(self).collected_types == old(self).collected_types,
            final(self).return_ty == old(self).return_ty,
            old(self).errors@.len() <= final(self).errors@.len(),
            forall|k: int| 0 <= k < old(self).errors@.len() ==> #[trigger] final(self).errors@[k] == old(self).errors@[k],
    {
        self.unify_depth(found, expected, usize::MAX);
    }
}

impl TypeChecker {
    /// Fresh type variables, one for each of `count` generic parameters.
    pub fn identity_args(&mut self, count: usize) -> (r: Vec<GenericArg>)
        requires
            old(self).infer_ctxt.current_ty_var + count <= u32::MAX,
        ensures
            r@.len() == count,
            forall|i: int|
                0 <= i < count ==> (#[trigger] r@[i]).model() == ArgModel::Type(
                    TyModel::Infer(InferTy::TyVar(TyVarId((old(self).infer_ctxt.current_ty_var + i) as u32))),
                ),
            final(self).infer_ctxt.current_ty_var == old(self).infer_ctxt.current_ty_var + count,
            final(self).infer_ctxt.type_var_map@ == old(self).infer_ctxt.type_var_map@,
            final(self).infer_ctxt.types@ == old(self).infer_ctxt.types@,
            final(self).errors == old(self).errors,
            final(self).collected_types == old(self).collected_types,
            final(self).return_ty == old(self).return_ty,
    {
        let mut args: Vec<GenericArg> = Vec::new();
        let mut i: usize = 0;
        while i < count
            invariant
                i <= count,
                args@.len() == i,
                self.infer_ctxt.current_ty_var == old(self).infer_ctxt.current_ty_var + i,
                old(self).infer_ctxt.current_ty_var + count <= u32::MAX,
                forall|j: int|
                    0 <= j < i ==> (#[trigger] args@[j]).model() == ArgModel::Type(
                        TyModel::Infer(InferTy::TyVar(TyVarId((old(self).infer_ctxt.current_ty_var + j) as u32))),
                    ),
                self.infer_ctxt.type_var_map@ == old(self).infer_ctxt.type_var_map@,
                self.infer_ctxt.types@ == old(self).infer_ctxt.types@,
                self.errors == old(self).errors,
                self.collected_types == old(self).collected_types,
                self.return_ty == old(self).return_ty,
            decreases count - i,
        {
            let t = self.infer_ctxt.next_ty_var();
            args.push(GenericArg::Type(t));
            i = i + 1;
        }
        args
    }

    /// The generic parameters of a definition: its own, then those of its
    /// parent. Only definitions nested one level deep have a parent.
    pub fn generics_of(&self, def_id: DefId) -> (r: Vec<GenericParamDef>)
        requires
            self.collected_types.generics_of@.contains_key(def_id.0),
            self.collected_types.generics_of@[def_id.0].parent matches Some(p) ==> (
            self.collected_types.generics_of@.contains_key(p.0)
                && self.collected_types.generics_of@[p.0].parent is None),
        ensures
            r@ == match self.collected_types.generics_of@[def_id.0].parent {
                Some(p) => self.collected_types.generics_of@[def_id.0].params@
                    + self.collected_types.generics_of@[p.0].params@,
                None => self.collected_types.generics_of@[def_id.0].params@,
            },
    {
        let own = self.collected_types.generics_of.get(&def_id.0).unwrap();
        let mut generics = own.params.clone();
        proof {
            assert(generics@ =~= own.params@);
        }
        match own.parent {
            Some(p) => {
                let parent = self.collected_types.generics_of.get(&p.0).unwrap();
                let mut i: usize = 0;
                while i < parent.params.len()
                    invariant
                        i <= parent.params@.len(),
                        generics@ == own.params@ + parent.params@.take(i as int),
                    decreases parent.params@.len() - i,
                {
                    generics.push(parent.params[i]);
                    i = i + 1;
                    assert(generics@ =~= own.params@ + parent.params@.take(i as int));
                }
                assert(parent.params@.take(parent.params@.len() as int) =~= parent.params@);
            },
            None => {},
        }
        generics
    }

    /// Reports generic arguments on any of the given path segments, which
    /// can only name modules.
    pub fn prohibit_generic_args(&mut self, segments: &Vec<HirNode<PathSegment>>)
        ensures
            final(self).errors@ == old(self).errors@ + prohibited_args_errors(segments@),
            final(self).infer_ctxt == old(self).infer_ctxt,
            final(self).collected_types == old(self).collected_types,
            final(self).return_ty == old(self).return_ty,
    {
        let mut i: usize = 0;
        while i < segments.len()
            invariant
                i <= segments@.len(),
                self.errors@ == old(self).errors@ + prohibited_args_errors(segments@.take(i as int)),
                self.infer_ctxt == old(self).infer_ctxt,
                self.collected_types == old(self).collected_types,
                self.return_ty == old(self).return_ty,
            decreases segments@.len() - i,
        {
            proof {
                assert(segments@.take(i + 1).drop_last() =~= segments@.take(i as int));
            }
            if segments[i].node.args.len() > 0 {
                self.errors.push(TypeCheckerError::GenericArgsOnLeadingSegment { span: segments[i].span });
            }
            i = i + 1;
            assert(self.errors@ =~= old(self).errors@ + prohibited_args_errors(segments@.take(i as int)));
        }
        assert(segments@.take(segments@.len() as int) =~= segments@);
    }
}

/// One error for each segment that has generic arguments, in order.
pub open spec fn prohibited_args_errors(segments: Seq<HirNode<PathSegment>>) -> Seq<TypeCheckerError>
    decreases segments.len(),
{
    if segments.len() == 0 {
        Seq::empty()
    } else {
        let rest = prohibited_args_errors(segments.drop_last());
        if segments.last().node.args@.len() > 0 {
            rest.push(TypeCheckerError::GenericArgsOnLeadingSegment { span: segments.last().span })
        } else {
            rest
        }
    }
}

} // verus!
