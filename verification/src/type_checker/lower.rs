use crate::ast_lowerer::hir;
use crate::ast_lowerer::hir::{HirNode, Path, PathSegment};
use crate::parser::ast::AstId;
use crate::resolver::defs::{DefId, DefKind};
use crate::resolver::ribs::{PrimTy, Res, SelfTyKind};
use crate::span::Span;
use crate::strings::{decimal, push_decimal, string_from_chars};
use crate::type_checker::checker::{prohibited_args_errors, TypeChecker};
use crate::type_checker::error::{errs_model, ErrorModel, TypeCheckerError};
use crate::type_checker::infer::{inst, inst_ok};
use crate::type_checker::model::{args_model, clone_ty, tys_model, ArgModel, TyModel};
use crate::type_checker::type_collector::prim_model;
use crate::type_checker::ty::{GenericArg, GenericParamDef, GenericParamKind, Generics, InferTy, Ty, TyVarId};
use vstd::prelude::*;

verus! {

broadcast use vstd::std_specs::hash::group_hash_axioms;

/// Where a path with generic arguments stands: as a type, where leaving
/// the arguments out is an error, or as a value, where they are inferred.
#[derive(Clone, Copy, Debug, PartialEq, Eq, Structural)]
pub enum GenericArgPosition {
    Type,
    Value,
}

/// What the type checker reads when it lowers a written type: the
/// generics and the type of each definition (keyed by the number inside a
/// definition's id).
pub struct CheckTables {
    pub generics_of: Map<usize, Generics>,
    pub type_of: Map<usize, TyModel>,
}

impl TypeChecker {
    pub open spec fn check_tables(&self) -> CheckTables {
        CheckTables {
            generics_of: self.collected_types.generics_of@,
            type_of: self.collected_types.type_of@.map_values(|t: Ty| t.model()),
        }
    }

    /// Everything but the errors and the count of inference variables is
    /// as in `other`.
    pub open spec fn same_but_vars(&self, other: &TypeChecker) -> bool {
        &&& self.collected_types == other.collected_types
        &&& self.return_ty == other.return_ty
        &&& self.infer_ctxt.type_var_map@ == other.infer_ctxt.type_var_map@
        &&& self.infer_ctxt.types@ == other.infer_ctxt.types@
    }
}

/// The generics of definition `d` are collected, and so are those of its
/// parent, which has none.
pub open spec fn generics_ok(c: CheckTables, d: DefId) -> bool {
    &&& c.generics_of.contains_key(d.0)
    &&& c.generics_of[d.0].parent matches Some(p) ==> (c.generics_of.contains_key(p.0)
        && c.generics_of[p.0].parent is None)
}

/// The generic parameters of definition `d`: its own, then its parent's.
pub open spec fn generics_list(c: CheckTables, d: DefId) -> Seq<GenericParamDef> {
    match c.generics_of[d.0].parent {
        Some(p) => c.generics_of[d.0].params@ + c.generics_of[p.0].params@,
        None => c.generics_of[d.0].params@,
    }
}

/// `count` fresh inference variables, numbered from `v` on.
pub open spec fn fresh_args(v: nat, count: nat) -> Seq<ArgModel> {
    Seq::new(count, |i: int| ArgModel::Type(TyModel::Infer(InferTy::TyVar(TyVarId((v + i) as u32)))))
}

/// The impl, trait or type that `Self` stands inside.
pub open spec fn self_def(k: SelfTyKind) -> DefId {
    match k {
        SelfTyKind::AdtDef { alias_to } => alias_to,
        SelfTyKind::TraitDef { trait_def } => trait_def,
        SelfTyKind::Impl { impl_block } => impl_block,
    }
}

/// The error for a generic argument of the wrong kind for its parameter.
pub open spec fn kind_mismatch(span: Span, param: GenericParamDef) -> ErrorModel {
    ErrorModel::GenericArgKindMismatch {
        expected_span: span,
        found_span: span,
        param: decimal(param.index as nat),
        expected: match param.kind {
            GenericParamKind::Type => seq!['t', 'y', 'p', 'e'],
            GenericParamKind::Const => seq!['c', 'o', 'n', 's', 't'],
        },
        found: match param.kind {
            GenericParamKind::Type => seq!['c', 'o', 'n', 's', 't'],
            GenericParamKind::Const => seq!['t', 'y', 'p', 'e'],
        },
    }
}

/// Whether an argument is of the kind of its parameter.
pub open spec fn kind_matches(param: GenericParamDef, arg: ArgModel) -> bool {
    match (param.kind, arg) {
        (GenericParamKind::Type, ArgModel::Type(_)) => true,
        (GenericParamKind::Const, ArgModel::Const(_)) => true,
        _ => false,
    }
}

/// One error for each argument of another kind than its parameter, in order.
pub open spec fn kind_mismatches(params: Seq<GenericParamDef>, args: Seq<ArgModel>, span: Span) -> Seq<ErrorModel>
    decreases params.len(),
{
    if params.len() == 0 {
        seq![]
    } else {
        kind_mismatches(params.drop_last(), args.take(params.len() - 1), span) + if kind_matches(
            params.last(),
            args[params.len() - 1],
        ) {
            seq![]
        } else {
            seq![kind_mismatch(span, params.last())]
        }
    }
}

/// What lowering a written type gives the type checker, from `v` as the
/// next inference variable: the type, what is reported, in order, and the
/// next inference variable after it. `None` where the type checker does
/// not handle the type (an array type, an associated type, a local, a
/// definition that is no struct or enum, an error, a constant argument, a
/// definition whose generics or type are not collected, a `Self` whose
/// type cannot take its fresh arguments, or more inference variables than
/// a `u32` counts).
pub open spec fn checked_ty(c: CheckTables, t: HirNode<hir::Ty>, v: nat) -> Option<(TyModel, Seq<ErrorModel>, nat)>
    decreases t, 0nat,
{
    match t.node {
        hir::Ty::Path(p) => match p.node {
            Path::Resolved { res, segments } => checked_res(c, res, segments@, v),
            Path::Unresolved { .. } => None,
        },
        hir::Ty::Array(_, _) => None,
        hir::Ty::Ptr(e) => match checked_ty(c, *e, v) {
            Some(r) => Some((TyModel::Ptr(Box::new(r.0)), r.1, r.2)),
            None => None,
        },
        hir::Ty::Fn(ps, ret) => match checked_tys(c, ps@, v) {
            Some(params) => match ret {
                Some(rt) => match checked_ty(c, *rt, params.2) {
                    Some(r) => Some((TyModel::FnPtr(params.0, Box::new(r.0)), params.1 + r.1, r.2)),
                    None => None,
                },
                None => Some((TyModel::FnPtr(params.0, Box::new(TyModel::Unit)), params.1, params.2)),
            },
            None => None,
        },
        hir::Ty::Tuple(ts) => match checked_tys(c, ts@, v) {
            Some(r) => Some((TyModel::Tuple(r.0), r.1, r.2)),
            None => None,
        },
    }
}

/// Lowering each type of a list, in order.
pub open spec fn checked_tys(c: CheckTables, ts: Seq<HirNode<hir::Ty>>, v: nat) -> Option<(Seq<TyModel>, Seq<ErrorModel>, nat)>
    decreases ts, 0nat,
{
    if ts.len() == 0 {
        Some((seq![], seq![], v))
    } else {
        match checked_tys(c, ts.drop_last(), v) {
            Some(init) => match checked_ty(c, ts.last(), init.2) {
                Some(r) => Some((init.0.push(r.0), init.1 + r.1, r.2)),
                None => None,
            },
            None => None,
        }
    }
}

/// Lowering the generic arguments of a segment, in order; constant
/// arguments are not handled.
pub open spec fn checked_args(c: CheckTables, args: Seq<HirNode<hir::GenericArg>>, v: nat) -> Option<(Seq<ArgModel>, Seq<ErrorModel>, nat)>
    decreases args, 0nat,
{
    if args.len() == 0 {
        Some((seq![], seq![], v))
    } else {
        match checked_args(c, args.drop_last(), v) {
            Some(init) => match args.last().node {
                hir::GenericArg::Type(t) => match checked_ty(c, t, init.2) {
                    Some(r) => Some((init.0.push(ArgModel::Type(r.0)), init.1 + r.1, r.2)),
                    None => None,
                },
                hir::GenericArg::Const(_) => None,
            },
            None => None,
        }
    }
}

/// The generic arguments that a segment gives definition `d`: as many as
/// its parameters, each of its kind (else reported); none in value
/// position, where fresh variables stand for them; any other count is
/// reported.
pub open spec fn checked_segment_args(
    c: CheckTables,
    d: DefId,
    seg: HirNode<PathSegment>,
    pos: GenericArgPosition,
    v: nat,
) -> Option<(Seq<ArgModel>, Seq<ErrorModel>, nat)>
    decreases seg, 1nat,
{
    if !generics_ok(c, d) {
        None
    } else {
        let params = generics_list(c, d);
        match checked_args(c, seg.node.args@, v) {
            Some(r) => if r.0.len() == params.len() {
                Some((r.0, r.1 + kind_mismatches(params, r.0, seg.span), r.2))
            } else if r.0.len() == 0 && pos == GenericArgPosition::Value {
                if r.2 + params.len() <= u32::MAX {
                    Some((fresh_args(r.2, params.len()), r.1, r.2 + params.len()))
                } else {
                    None
                }
            } else {
                Some(
                    (
                        r.0,
                        r.1 + seq![
                            ErrorModel::GenericArgArityMismatch {
                                span: seg.span,
                                name: seg.node.ident.node.name@,
                                expected: params.len(),
                                found: r.0.len(),
                            },
                        ],
                        r.2,
                    ),
                )
            },
            None => None,
        }
    }
}

/// The generic arguments that a path gives definition `d`: those of its
/// last segment; the segments before it may have none (else reported).
pub open spec fn checked_path_args(
    c: CheckTables,
    d: DefId,
    segs: Seq<HirNode<PathSegment>>,
    pos: GenericArgPosition,
    v: nat,
) -> Option<(Seq<ArgModel>, Seq<ErrorModel>, nat)>
    decreases segs, 2nat,
{
    if segs.len() == 0 {
        None
    } else {
        match checked_segment_args(c, d, segs.last(), pos, v) {
            Some(r) => Some((r.0, errs_model(prohibited_args_errors(segs.drop_last())) + r.1, r.2)),
            None => None,
        }
    }
}

/// What a resolved path in type position lowers to: a struct or enum with
/// its arguments, a primitive type, or the type of the item that `Self`
/// stands inside with fresh variables for its generic parameters.
pub open spec fn checked_res(c: CheckTables, res: Res<AstId>, segs: Seq<HirNode<PathSegment>>, v: nat) -> Option<(TyModel, Seq<ErrorModel>, nat)>
    decreases segs, 3nat,
{
    match res {
        Res::Def(d, DefKind::Struct) => match checked_path_args(c, d, segs, GenericArgPosition::Type, v) {
            Some(r) => Some((TyModel::Struct(d, r.0), r.1, r.2)),
            None => None,
        },
        Res::Def(d, DefKind::Enum) => match checked_path_args(c, d, segs, GenericArgPosition::Type, v) {
            Some(r) => Some((TyModel::Enum(d, r.0), r.1, r.2)),
            None => None,
        },
        Res::PrimTy(p) => Some((prim_model(p), seq![], v)),
        Res::SelfTy(k) => {
            let d = self_def(k);
            if c.type_of.contains_key(d.0) && generics_ok(c, d) && v + generics_list(c, d).len() <= u32::MAX
                && inst_ok(c.type_of[d.0], fresh_args(v, generics_list(c, d).len())) {
                Some(
                    (
                        inst(c.type_of[d.0], fresh_args(v, generics_list(c, d).len())),
                        errs_model(prohibited_args_errors(segs)),
                        v + generics_list(c, d).len(),
                    ),
                )
            } else {
                None
            }
        },
        _ => None,
    }
}

/// The models of the arguments are those of `args`.
proof fn lemma_args_model_push(args: Seq<GenericArg>, a: GenericArg)
    ensures
        args_model(args.push(a)) == args_model(args).push(a.model()),
{
    assert(args_model(args.push(a)) =~= args_model(args).push(a.model()));
}

impl TypeChecker {
    /// Lowers a written type as the type checker sees it (`checked_ty`
    /// says what it gives).
    pub fn lower_ty(&mut self, t: &HirNode<hir::Ty>) -> (r: Ty)
        requires
            checked_ty(old(self).check_tables(), *t, old(self).infer_ctxt.current_ty_var as nat) is Some,
        ensures
            final(self).same_but_vars(old(self)),
            ({
                let c = checked_ty(old(self).check_tables(), *t, old(self).infer_ctxt.current_ty_var as nat).unwrap();
                &&& r.model() == c.0
                &&& errs_model(final(self).errors@) == errs_model(old(self).errors@) + c.1
                &&& final(self).infer_ctxt.current_ty_var == c.2
            }),
        decreases t, 0nat,
    {
        match &t.node {
            hir::Ty::Path(p) => match &p.node {
                Path::Resolved { res, segments } => self.lower_resolved_ty(res, segments),
                Path::Unresolved { .. } => {
                    proof {
                        assert(false);
                    }
                    Ty::Error
                },
            },
            hir::Ty::Array(_, _) => {
                proof {
                    assert(false);
                }
                Ty::Error
            },
            hir::Ty::Ptr(e) => {
                let inner = self.lower_ty(e);
                Ty::Ptr(Box::new(inner))
            },
            hir::Ty::Fn(ps, ret) => {
                let ghost e0 = errs_model(self.errors@);
                let params = self.lower_tys(ps);
                let return_ty = match ret {
                    Some(rt) => self.lower_ty(rt),
                    None => Ty::Unit,
                };
                proof {
                    let tab = old(self).check_tables();
                    let pr = checked_tys(tab, ps@, old(self).infer_ctxt.current_ty_var as nat).unwrap();
                    match ret {
                        Some(rt) => {
                            let rr = checked_ty(tab, **rt, pr.2).unwrap();
                            assert(errs_model(self.errors@) =~= e0 + (pr.1 + rr.1));
                        },
                        None => {},
                    }
                }
                Ty::FnPtr(params, Box::new(return_ty))
            },
            hir::Ty::Tuple(ts) => {
                let elems = self.lower_tys(ts);
                Ty::Tuple(elems)
            },
        }
    }

    fn lower_tys(&mut self, ts: &Vec<HirNode<hir::Ty>>) -> (r: Vec<Ty>)
        requires
            checked_tys(old(self).check_tables(), ts@, old(self).infer_ctxt.current_ty_var as nat) is Some,
        ensures
            final(self).same_but_vars(old(self)),
            ({
                let c = checked_tys(old(self).check_tables(), ts@, old(self).infer_ctxt.current_ty_var as nat).unwrap();
                &&& tys_model(r@) == c.0
                &&& errs_model(final(self).errors@) == errs_model(old(self).errors@) + c.1
                &&& final(self).infer_ctxt.current_ty_var == c.2
            }),
        decreases ts, 0nat,
    {
        let ghost tab = old(self).check_tables();
        let ghost v0 = old(self).infer_ctxt.current_ty_var as nat;
        let mut out: Vec<Ty> = Vec::new();
        let mut i: usize = 0;
        assert(ts@.take(0) =~= Seq::<HirNode<hir::Ty>>::empty());
        assert(errs_model(self.errors@) =~= errs_model(old(self).errors@) + seq![]);
        assert(tys_model(out@) =~= seq![]);
        while i < ts.len()
            invariant
                i <= ts.len(),
                self.same_but_vars(old(self)),
                tab == old(self).check_tables(),
                v0 == old(self).infer_ctxt.current_ty_var as nat,
                checked_tys(tab, ts@, v0) is Some,
                checked_tys(tab, ts@.take(i as int), v0) is Some,
                tys_model(out@) == checked_tys(tab, ts@.take(i as int), v0).unwrap().0,
                errs_model(self.errors@) == errs_model(old(self).errors@) + checked_tys(
                    tab,
                    ts@.take(i as int),
                    v0,
                ).unwrap().1,
                self.infer_ctxt.current_ty_var == checked_tys(tab, ts@.take(i as int), v0).unwrap().2,
            decreases ts.len() - i,
        {
            proof {
                lemma_checked_tys_prefix(tab, ts@, i as int, v0);
                assert(decreases_to!(*ts => ts[i as int]));
            }
            let ghost before = out@;
            let t = self.lower_ty(&ts[i]);
            out.push(t);
            proof {
                let init = checked_tys(tab, ts@.take(i as int), v0).unwrap();
                let rr = checked_ty(tab, ts@[i as int], init.2).unwrap();
                assert(tys_model(out@) =~= tys_model(before).push(t.model()));
                assert(errs_model(self.errors@) =~= errs_model(old(self).errors@) + (init.1 + rr.1));
            }
            i = i + 1;
        }
        assert(ts@.take(ts.len() as int) =~= ts@);
        out
    }

    /// Lowers the generic arguments written on a segment.
    pub fn generic_args(&mut self, seg: &HirNode<PathSegment>) -> (r: Vec<GenericArg>)
        requires
            checked_args(old(self).check_tables(), seg.node.args@, old(self).infer_ctxt.current_ty_var as nat) is Some,
        ensures
            final(self).same_but_vars(old(self)),
            ({
                let c = checked_args(
                    old(self).check_tables(),
                    seg.node.args@,
                    old(self).infer_ctxt.current_ty_var as nat,
                ).unwrap();
                &&& args_model(r@) == c.0
                &&& errs_model(final(self).errors@) == errs_model(old(self).errors@) + c.1
                &&& final(self).infer_ctxt.current_ty_var == c.2
            }),
        decreases seg, 0nat,
    {
        let args = &seg.node.args;
        let ghost tab = old(self).check_tables();
        let ghost v0 = old(self).infer_ctxt.current_ty_var as nat;
        let mut out: Vec<GenericArg> = Vec::new();
        let mut i: usize = 0;
        assert(args@.take(0) =~= Seq::<HirNode<hir::GenericArg>>::empty());
        assert(errs_model(self.errors@) =~= errs_model(old(self).errors@) + seq![]);
        assert(args_model(out@) =~= seq![]);
        while i < args.len()
            invariant
                i <= args.len(),
                args == &seg.node.args,
                self.same_but_vars(old(self)),
                tab == old(self).check_tables(),
                v0 == old(self).infer_ctxt.current_ty_var as nat,
                checked_args(tab, args@, v0) is Some,
                checked_args(tab, args@.take(i as int), v0) is Some,
                args_model(out@) == checked_args(tab, args@.take(i as int), v0).unwrap().0,
                errs_model(self.errors@) == errs_model(old(self).errors@) + checked_args(
                    tab,
                    args@.take(i as int),
                    v0,
                ).unwrap().1,
                self.infer_ctxt.current_ty_var == checked_args(tab, args@.take(i as int), v0).unwrap().2,
            decreases args.len() - i,
        {
            proof {
                lemma_checked_args_prefix(tab, args@, i as int, v0);
                assert(decreases_to!(*seg => seg.node));
                assert(decreases_to!(seg.node => seg.node.args));
                assert(decreases_to!(seg.node.args => seg.node.args[i as int]));
            }
            let ghost before = out@;
            let a = match &args[i].node {
                hir::GenericArg::Type(t) => {
                    let lowered = self.lower_ty(t);
                    GenericArg::Type(lowered)
                },
                hir::GenericArg::Const(_) => {
                    proof {
                        assert(false);
                    }
                    GenericArg::Type(Ty::Error)
                },
            };
            out.push(a);
            proof {
                let init = checked_args(tab, args@.take(i as int), v0).unwrap();
                let rr = checked_ty(tab, args@[i as int].node->Type_0, init.2).unwrap();
                lemma_args_model_push(before, a);
                assert(errs_model(self.errors@) =~= errs_model(old(self).errors@) + (init.1 + rr.1));
            }
            i = i + 1;
        }
        assert(args@.take(args.len() as int) =~= args@);
        out
    }
}

/// The word for a kind of generic parameter, as messages write it.
fn kind_word(k: GenericParamKind) -> (s: String)
    ensures
        s@ == match k {
            GenericParamKind::Type => seq!['t', 'y', 'p', 'e'],
            GenericParamKind::Const => seq!['c', 'o', 'n', 's', 't'],
        },
{
    match k {
        GenericParamKind::Type => {
            let v = vec!['t', 'y', 'p', 'e'];
            assert(v@ =~= seq!['t', 'y', 'p', 'e']);
            string_from_chars(&v)
        },
        GenericParamKind::Const => {
            let v = vec!['c', 'o', 'n', 's', 't'];
            assert(v@ =~= seq!['c', 'o', 'n', 's', 't']);
            string_from_chars(&v)
        },
    }
}

/// The model of a list of errors with more errors added.
proof fn lemma_errs_model_concat(a: Seq<TypeCheckerError>, b: Seq<TypeCheckerError>)
    ensures
        errs_model(a + b) == errs_model(a) + errs_model(b),
{
    assert(errs_model(a + b) =~= errs_model(a) + errs_model(b));
}

impl TypeChecker {
    /// Reports generic arguments on any of the first `n` segments.
    fn prohibit_leading_generic_args(&mut self, segments: &Vec<HirNode<PathSegment>>, n: usize)
        requires
            n <= segments@.len(),
        ensures
            final(self).errors@ == old(self).errors@ + prohibited_args_errors(segments@.take(n as int)),
            final(self).infer_ctxt == old(self).infer_ctxt,
            final(self).collected_types == old(self).collected_types,
            final(self).return_ty == old(self).return_ty,
    {
        let mut i: usize = 0;
        assert(old(self).errors@ =~= old(self).errors@ + prohibited_args_errors(segments@.take(0)));
        while i < n
            invariant
                i <= n,
                n <= segments@.len(),
                self.errors@ == old(self).errors@ + prohibited_args_errors(segments@.take(i as int)),
                self.infer_ctxt == old(self).infer_ctxt,
                self.collected_types == old(self).collected_types,
                self.return_ty == old(self).return_ty,
            decreases n - i,
        {
            proof {
                assert(segments@.take(i + 1).drop_last() =~= segments@.take(i as int));
            }
            if segments[i].node.args.len() > 0 {
                self.errors.push(TypeCheckerError::GenericArgsOnLeadingSegment { span: segments[i].span });
            }
            i = i + 1;
            assert(self.errors@ =~= old(self).errors@ + prohibited_args_errors(segments@.take(i as int)));
        }
    }

    /// The generic arguments that segment `seg` gives definition `d`
    /// (`checked_segment_args` says what they are).
    pub fn generics_arg_for_segment(&mut self, d: DefId, seg: &HirNode<PathSegment>, pos: GenericArgPosition) -> (r: Vec<GenericArg>)
        requires
            checked_segment_args(old(self).check_tables(), d, *seg, pos, old(self).infer_ctxt.current_ty_var as nat) is Some,
        ensures
            final(self).same_but_vars(old(self)),
            ({
                let c = checked_segment_args(
                    old(self).check_tables(),
                    d,
                    *seg,
                    pos,
                    old(self).infer_ctxt.current_ty_var as nat,
                ).unwrap();
                &&& args_model(r@) == c.0
                &&& errs_model(final(self).errors@) == errs_model(old(self).errors@) + c.1
                &&& final(self).infer_ctxt.current_ty_var == c.2
            }),
        decreases seg, 1nat,
    {
        let ghost tab = old(self).check_tables();
        let generics = self.generics_of(d);
        let generic_args = self.generic_args(seg);
        let ghost e1 = errs_model(self.errors@);
        let ghost am = args_model(generic_args@);
        let ghost v1 = self.infer_ctxt.current_ty_var;
        if generic_args.len() == generics.len() {
            let mut i: usize = 0;
            assert(generics@.take(0) =~= Seq::<GenericParamDef>::empty());
            assert(errs_model(self.errors@) =~= e1 + kind_mismatches(generics@.take(0), am.take(0), seg.span));
            while i < generics.len()
                invariant
                    i <= generics@.len(),
                    generics@.len() == generic_args@.len(),
                    am == args_model(generic_args@),
                    am.len() == generic_args@.len(),
                    self.same_but_vars(old(self)),
                    errs_model(self.errors@) == e1 + kind_mismatches(generics@.take(i as int), am.take(i as int), seg.span),
                    self.infer_ctxt.current_ty_var == v1,
                decreases generics@.len() - i,
            {
                let param = generics[i];
                let ghost ps = generics@.take(i + 1);
                let ghost before = errs_model(self.errors@);
                proof {
                    assert(ps.drop_last() =~= generics@.take(i as int));
                    assert(am.take(i + 1).take(i as int) =~= am.take(i as int));
                    assert(ps.last() == param);
                    assert(am.take(i + 1)[i as int] == generic_args@[i as int].model());
                }
                let matches = match (param.kind, &generic_args[i]) {
                    (GenericParamKind::Type, GenericArg::Type(_)) => true,
                    (GenericParamKind::Const, GenericArg::Const(_)) => true,
                    _ => false,
                };
                if !matches {
                    let mut index = String::new();
                    push_decimal(&mut index, param.index);
                    let e = TypeCheckerError::GenericArgKindMismatch {
                        expected_span: seg.span,
                        found_span: seg.span,
                        param: index,
                        expected: kind_word(param.kind),
                        found: kind_word(
                            match param.kind {
                                GenericParamKind::Type => GenericParamKind::Const,
                                GenericParamKind::Const => GenericParamKind::Type,
                            },
                        ),
                    };
                    self.errors.push(e);
                    proof {
                        assert(errs_model(self.errors@) =~= before.push(e.model()));
                        assert(e.model() == kind_mismatch(seg.span, param));
                    }
                }
                i = i + 1;
                proof {
                    assert(errs_model(self.errors@) =~= e1 + kind_mismatches(
                        generics@.take(i as int),
                        am.take(i as int),
                        seg.span,
                    ));
                }
            }
            proof {
                assert(generics@.take(generics@.len() as int) =~= generics@);
                assert(am.take(am.len() as int) =~= am);
            }
            generic_args
        } else if generic_args.len() == 0 && pos == GenericArgPosition::Value {
            let args = self.identity_args(generics.len());
            proof {
                assert(args_model(args@) =~= fresh_args(v1 as nat, generics@.len()));
                assert(errs_model(self.errors@) =~= e1 + seq![]);
            }
            args
        } else {
            let e = TypeCheckerError::GenericArgArityMismatch {
                span: seg.span,
                name: seg.node.ident.node.name.clone(),
                expected: generics.len(),
                found: generic_args.len(),
            };
            self.errors.push(e);
            proof {
                assert(errs_model(self.errors@) =~= e1 + seq![e.model()]);
            }
            generic_args
        }
    }

    /// The generic arguments that a path gives definition `d`: those of
    /// its last segment, the others may have none.
    pub fn lower_generic_args(&mut self, d: DefId, segs: &Vec<HirNode<PathSegment>>, pos: GenericArgPosition) -> (r: Vec<GenericArg>)
        requires
            checked_path_args(old(self).check_tables(), d, segs@, pos, old(self).infer_ctxt.current_ty_var as nat) is Some,
        ensures
            final(self).same_but_vars(old(self)),
            ({
                let c = checked_path_args(
                    old(self).check_tables(),
                    d,
                    segs@,
                    pos,
                    old(self).infer_ctxt.current_ty_var as nat,
                ).unwrap();
                &&& args_model(r@) == c.0
                &&& errs_model(final(self).errors@) == errs_model(old(self).errors@) + c.1
                &&& final(self).infer_ctxt.current_ty_var == c.2
            }),
        decreases segs, 2nat,
    {
        let n = segs.len();
        self.prohibit_leading_generic_args(segs, n - 1);
        proof {
            assert(segs@.take(n - 1) =~= segs@.drop_last());
            lemma_errs_model_concat(old(self).errors@, prohibited_args_errors(segs@.drop_last()));
            assert(decreases_to!(*segs => segs@.last()));
        }
        let ghost e1 = errs_model(self.errors@);
        let r = self.generics_arg_for_segment(d, &segs[n - 1], pos);
        proof {
            let c = checked_segment_args(old(self).check_tables(), d, segs@.last(), pos, old(self).infer_ctxt.current_ty_var as nat).unwrap();
            assert(errs_model(self.errors@) =~= errs_model(old(self).errors@) + (errs_model(
                prohibited_args_errors(segs@.drop_last()),
            ) + c.1));
        }
        r
    }

    /// What a resolved path in type position lowers to (`checked_res` says
    /// what).
    pub fn lower_resolved_ty(&mut self, res: &Res<AstId>, segs: &Vec<HirNode<PathSegment>>) -> (r: Ty)
        requires
            checked_res(old(self).check_tables(), *res, segs@, old(self).infer_ctxt.current_ty_var as nat) is Some,
        ensures
            final(self).same_but_vars(old(self)),
            ({
                let c = checked_res(old(self).check_tables(), *res, segs@, old(self).infer_ctxt.current_ty_var as nat).unwrap();
                &&& r.model() == c.0
                &&& errs_model(final(self).errors@) == errs_model(old(self).errors@) + c.1
                &&& final(self).infer_ctxt.current_ty_var == c.2
            }),
        decreases segs, 3nat,
    {
        match res {
            Res::Def(d, kind) => match kind {
                DefKind::Struct => {
                    let args = self.lower_generic_args(*d, segs, GenericArgPosition::Type);
                    Ty::Struct(*d, args)
                },
                DefKind::Enum => {
                    let args = self.lower_generic_args(*d, segs, GenericArgPosition::Type);
                    Ty::Enum(*d, args)
                },
                _ => {
                    proof {
                        assert(false);
                    }
                    Ty::Error
                },
            },
            Res::PrimTy(p) => {
                assert(errs_model(self.errors@) =~= errs_model(old(self).errors@) + seq![]);
                match p {
                    PrimTy::I32 => Ty::I32,
                    PrimTy::U32 => Ty::U32,
                    PrimTy::F64 => Ty::F64,
                    PrimTy::Bool => Ty::Bool,
                    PrimTy::Str => Ty::Str,
                }
            },
            Res::SelfTy(k) => {
                let d = match k {
                    SelfTyKind::AdtDef { alias_to } => *alias_to,
                    SelfTyKind::TraitDef { trait_def } => *trait_def,
                    SelfTyKind::Impl { impl_block } => *impl_block,
                };
                self.prohibit_generic_args(segs);
                proof {
                    lemma_errs_model_concat(old(self).errors@, prohibited_args_errors(segs@));
                }
                let ty = match self.collected_types.type_of.get(&d.0) {
                    Some(t) => clone_ty(t),
                    None => {
                        proof {
                            assert(false);
                        }
                        Ty::Error
                    },
                };
                let count = self.generics_of(d).len();
                let args = self.identity_args(count);
                proof {
                    assert(args_model(args@) =~= fresh_args(old(self).infer_ctxt.current_ty_var as nat, count as nat));
                }
                self.instantiate(&ty, &args)
            },
            _ => {
                proof {
                    assert(false);
                }
                Ty::Error
            },
        }
    }
}

/// If a list of types lowers, so does each prefix and each element.
pub proof fn lemma_checked_tys_prefix(c: CheckTables, ts: Seq<HirNode<hir::Ty>>, k: int, v: nat)
    requires
        checked_tys(c, ts, v) is Some,
        0 <= k < ts.len(),
    ensures
        checked_tys(c, ts.take(k), v) is Some,
        checked_ty(c, ts[k], checked_tys(c, ts.take(k), v).unwrap().2) is Some,
        ts.take(k + 1).drop_last() == ts.take(k),
        ts.take(k + 1).last() == ts[k],
    decreases ts.len(),
{
    assert(ts.take(k + 1).drop_last() =~= ts.take(k));
    if k == ts.len() - 1 {
        assert(ts.take(k) =~= ts.drop_last());
    } else {
        lemma_checked_tys_prefix(c, ts.drop_last(), k, v);
        assert(ts.drop_last().take(k) =~= ts.take(k));
    }
}

/// If a list of generic arguments lowers, so does each prefix and each
/// element, which is a type.
pub proof fn lemma_checked_args_prefix(c: CheckTables, args: Seq<HirNode<hir::GenericArg>>, k: int, v: nat)
    requires
        checked_args(c, args, v) is Some,
        0 <= k < args.len(),
    ensures
        checked_args(c, args.take(k), v) is Some,
        args[k].node is Type,
        checked_ty(c, args[k].node->Type_0, checked_args(c, args.take(k), v).unwrap().2) is Some,
        args.take(k + 1).drop_last() == args.take(k),
        args.take(k + 1).last() == args[k],
    decreases args.len(),
{
    assert(args.take(k + 1).drop_last() =~= args.take(k));
    if k == args.len() - 1 {
        assert(args.take(k) =~= args.drop_last());
    } else {
        lemma_checked_args_prefix(c, args.drop_last(), k, v);
        assert(args.drop_last().take(k) =~= args.take(k));
    }
}

} // verus!
