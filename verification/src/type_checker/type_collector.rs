use crate::ast_lowerer::hir;
use crate::ast_lowerer::hir::{HirId, HirNode, Path};
use crate::resolver::defs::{DefId, DefKind};
use crate::resolver::module_builder::clone_ident;
use crate::resolver::ribs::{PrimTy, Res, SelfTyKind};
use crate::span::Span;
use crate::type_checker::error::{errs_model, ErrorModel, TypeCheckerError};
use crate::type_checker::model::{args_model, clone_ty, tys_model, ArgModel, TyModel};
use crate::type_checker::ty::{spec_param_index, AssocItemDef, CollectedTypes, GenericArg, Generics, Ty};
use std::collections::HashMap;
use vstd::prelude::*;

verus! {

broadcast use vstd::std_specs::hash::group_hash_axioms;

/// Whether the type of a type alias is being lowered or is done.
#[derive(Clone, Copy, Debug, PartialEq, Eq, Structural)]
pub enum CollectState {
    Done,
    InProgress,
}

/// Lowers the types written in the source into the types of the type
/// checker, from what has been collected so far: the collected types, the
/// state of each type alias, the parent of each generic parameter, and the
/// written type of each type alias (all keyed by the number inside a
/// definition's id). What it reports goes to `errors`.
pub struct TypeCollector<'a> {
    pub collected_types: CollectedTypes,
    pub collecting: HashMap<usize, CollectState>,
    pub parent_map: HashMap<usize, DefId>,
    pub aliases: HashMap<usize, &'a HirNode<hir::Ty>>,
    pub errors: Vec<TypeCheckerError>,
}

/// The type a primitive type stands for.
pub open spec fn prim_model(p: PrimTy) -> TyModel {
    match p {
        PrimTy::I32 => TyModel::I32,
        PrimTy::U32 => TyModel::U32,
        PrimTy::F64 => TyModel::F64,
        PrimTy::Bool => TyModel::Bool,
        PrimTy::Str => TyModel::Str,
    }
}

/// The ids of the generic arguments.
pub open spec fn arg_ids(args: Seq<HirNode<hir::GenericArg>>) -> Seq<HirId> {
    args.map_values(|a: HirNode<hir::GenericArg>| a.hir_id)
}

/// The associated items of the impls, impl after impl, each in its order.
pub open spec fn assoc_candidates(impls: Seq<DefId>, assoc: Map<usize, Vec<AssocItemDef>>) -> Seq<DefId>
    decreases impls.len(),
{
    if impls.len() == 0 {
        seq![]
    } else {
        assoc_candidates(impls.drop_last(), assoc) + assoc[impls.last().0]@.map_values(
            |a: AssocItemDef| a.def_id,
        )
    }
}

/// The index of generic parameter `def_id` among the generics `g` (or
/// those of their parents).
pub open spec fn param_index_of(g: Generics, def_id: DefId, generics_of: Map<usize, Generics>) -> usize {
    spec_param_index(
        g,
        def_id,
        generics_of,
        choose|f: nat| spec_param_index(g, def_id, generics_of, f) is Some,
    )->0
}

/// What lowering reads: the type of each definition, the generics of each
/// definition, the state of each type alias, the parent of each generic
/// parameter, the written type of each type alias, the impls of each type
/// and the associated items of each impl (all keyed by the number inside a
/// definition's id).
pub struct LowerTables {
    pub type_of: Map<usize, TyModel>,
    pub generics_of: Map<usize, Generics>,
    pub collecting: Map<usize, CollectState>,
    pub parent_map: Map<usize, DefId>,
    pub aliases: Map<usize, HirNode<hir::Ty>>,
    pub impls_of: Map<usize, Vec<DefId>>,
    pub assoc_items: Map<usize, Vec<AssocItemDef>>,
}

impl<'a> TypeCollector<'a> {
    /// The tables that lowering reads.
    pub open spec fn tables(&self) -> LowerTables {
        LowerTables {
            type_of: self.collected_types.type_of@.map_values(|t: Ty| t.model()),
            generics_of: self.collected_types.generics_of@,
            collecting: self.collecting@,
            parent_map: self.parent_map@,
            aliases: self.aliases@.map_values(|t: &HirNode<hir::Ty>| *t),
            impls_of: self.collected_types.impls_of@,
            assoc_items: self.collected_types.assoc_items@,
        }
    }
}

/// The type that the collected types give to definition `d`, if any.
pub open spec fn type_of(c: LowerTables, d: DefId) -> Option<TyModel> {
    if c.type_of.contains_key(d.0) {
        Some(c.type_of[d.0])
    } else {
        None
    }
}

/// The tables while the alias `d` is lowered on demand: it is marked as
/// being collected, so that a reference back to it is reported as a cycle.
pub open spec fn alias_in_progress(c: LowerTables, d: DefId) -> LowerTables {
    LowerTables {
        type_of: c.type_of,
        generics_of: c.generics_of,
        collecting: c.collecting.insert(d.0, CollectState::InProgress),
        parent_map: c.parent_map,
        aliases: c.aliases,
        impls_of: c.impls_of,
        assoc_items: c.assoc_items,
    }
}

/// What lowering the written type `t` gives: the type and what is
/// reported, in order. `None` where lowering does not handle the type
/// (it names a local, a constant argument, a definition whose type or
/// generics are not collected, or a kind of definition that is no
/// type), or where more than `fuel` type aliases are lowered on demand,
/// one inside another.
pub open spec fn lowered_ty(c: LowerTables, t: HirNode<hir::Ty>, fuel: nat) -> Option<(TyModel, Seq<ErrorModel>)>
    decreases fuel, t,
{
    match t.node {
        hir::Ty::Path(p) => lowered_path(c, t.span, p, fuel),
        hir::Ty::Array(e, _) => match lowered_ty(c, *e, fuel) {
            Some(r) => Some((TyModel::Slice(Box::new(r.0)), r.1)),
            None => None,
        },
        hir::Ty::Ptr(e) => match lowered_ty(c, *e, fuel) {
            Some(r) => Some((TyModel::Ptr(Box::new(r.0)), r.1)),
            None => None,
        },
        hir::Ty::Fn(ps, ret) => match lowered_tys(c, ps@, fuel) {
            Some(params) => match ret {
                Some(rt) => match lowered_ty(c, *rt, fuel) {
                    Some(r) => Some((TyModel::FnPtr(params.0, Box::new(r.0)), params.1 + r.1)),
                    None => None,
                },
                None => Some((TyModel::FnPtr(params.0, Box::new(TyModel::Unit)), params.1)),
            },
            None => None,
        },
        hir::Ty::Tuple(ts) => if ts@.len() == 0 {
            Some((TyModel::Unit, seq![]))
        } else {
            match lowered_tys(c, ts@, fuel) {
                Some(r) => Some((TyModel::Tuple(r.0), r.1)),
                None => None,
            }
        },
    }
}

/// Lowering each type of a list, in order.
pub open spec fn lowered_tys(c: LowerTables, ts: Seq<HirNode<hir::Ty>>, fuel: nat) -> Option<(Seq<TyModel>, Seq<ErrorModel>)>
    decreases fuel, ts,
{
    if ts.len() == 0 {
        Some((seq![], seq![]))
    } else {
        match lowered_tys(c, ts.drop_last(), fuel) {
            Some(init) => match lowered_ty(c, ts.last(), fuel) {
                Some(r) => Some((init.0.push(r.0), init.1 + r.1)),
                None => None,
            },
            None => None,
        }
    }
}

/// Lowering each generic argument of a list, in order; constant
/// arguments are not handled.
pub open spec fn lowered_args(c: LowerTables, args: Seq<HirNode<hir::GenericArg>>, fuel: nat) -> Option<(Seq<ArgModel>, Seq<ErrorModel>)>
    decreases fuel, args,
{
    if args.len() == 0 {
        Some((seq![], seq![]))
    } else {
        match lowered_args(c, args.drop_last(), fuel) {
            Some(init) => match args.last().node {
                hir::GenericArg::Type(t) => match lowered_ty(c, t, fuel) {
                    Some(r) => Some((init.0.push(ArgModel::Type(r.0)), init.1 + r.1)),
                    None => None,
                },
                hir::GenericArg::Const(_) => None,
            },
            None => None,
        }
    }
}

/// A struct or enum named with the generic arguments of the path's last
/// segment; a count of arguments other than that of the generics is
/// reported at that segment.
pub open spec fn lowered_adt(c: LowerTables, d: DefId, is_struct: bool, segments: Seq<HirNode<hir::PathSegment>>, fuel: nat) -> Option<(TyModel, Seq<ErrorModel>)>
    decreases fuel, segments,
{
    if segments.len() == 0 || !c.generics_of.contains_key(d.0) {
        None
    } else {
        let last = segments.last();
        match lowered_args(c, last.node.args@, fuel) {
            Some(r) => {
                let expected = c.generics_of[d.0].params@.len();
                Some(
                    (
                        if is_struct {
                            TyModel::Struct(d, r.0)
                        } else {
                            TyModel::Enum(d, r.0)
                        },
                        r.1 + if expected != r.0.len() {
                            seq![
                                ErrorModel::GenericArgArityMismatch {
                                    span: last.span,
                                    name: last.node.ident.node.name@,
                                    expected,
                                    found: r.0.len(),
                                },
                            ]
                        } else {
                            seq![]
                        },
                    ),
                )
            },
            None => None,
        }
    }
}

/// Lowering a path written as a type, whose type node has span `span`.
pub open spec fn lowered_path(c: LowerTables, span: Span, p: HirNode<Path>, fuel: nat) -> Option<(TyModel, Seq<ErrorModel>)>
    decreases fuel, p,
{
    match p.node {
        Path::Resolved { res, segments } => match res {
            Res::Local(_) => None,
            Res::Def(d, kind) => match kind {
                DefKind::Struct => lowered_adt(c, d, true, segments@, fuel),
                DefKind::Enum => lowered_adt(c, d, false, segments@, fuel),
                DefKind::Function | DefKind::ExternFn | DefKind::AssocFn => match type_of(c, d) {
                    Some(t) => Some((t, seq![])),
                    None => None,
                },
                DefKind::TypeAlias => if !c.collecting.contains_key(d.0) {
                    if c.aliases.contains_key(d.0) && fuel > 0 {
                        lowered_ty(alias_in_progress(c, d), c.aliases[d.0], (fuel - 1) as nat)
                    } else {
                        None
                    }
                } else if c.collecting[d.0] == CollectState::Done {
                    match type_of(c, d) {
                        Some(t) => Some((t, seq![])),
                        None => None,
                    }
                } else if segments@.len() == 0 {
                    None
                } else {
                    Some(
                        (
                            TyModel::Error,
                            seq![
                                ErrorModel::CyclicTypeDefinition {
                                    span,
                                    name: segments@.last().node.ident.node.name@,
                                },
                            ],
                        ),
                    )
                },
                DefKind::TypeParam => if c.parent_map.contains_key(d.0)
                    && c.generics_of.contains_key(c.parent_map[d.0].0) && exists|f: nat|
                    spec_param_index(
                        c.generics_of[c.parent_map[d.0].0],
                        d,
                        c.generics_of,
                        f,
                    ) is Some {
                    Some(
                        (
                            TyModel::GenericParam(
                                param_index_of(
                                    c.generics_of[c.parent_map[d.0].0],
                                    d,
                                    c.generics_of,
                                ),
                            ),
                            seq![],
                        ),
                    )
                } else {
                    None
                },
                _ => None,
            },
            Res::PrimTy(prim) => Some((prim_model(prim), seq![])),
            Res::SelfTy(k) => match k {
                SelfTyKind::AdtDef { alias_to } => match type_of(c, alias_to) {
                    Some(t) => Some((t, seq![])),
                    None => None,
                },
                SelfTyKind::TraitDef { .. } => Some((TyModel::GenericParam(0), seq![])),
                SelfTyKind::Impl { impl_block } => match type_of(c, impl_block) {
                    Some(t) => Some((t, seq![])),
                    None => None,
                },
            },
            Res::Error => Some((TyModel::Error, seq![])),
        },
        Path::Unresolved { res, resolved_segments, unresolved_segments } => match res {
            Res::Def(d, _) => if unresolved_segments@.len() == 1 && resolved_segments@.len() > 0
                && c.impls_of.contains_key(d.0) && (forall|i: int|
                0 <= i < c.impls_of[d.0]@.len()
                    ==> c.assoc_items.contains_key(
                    #[trigger] c.impls_of[d.0]@[i].0,
                )) {
                Some(
                    (
                        TyModel::InherentTyAlias {
                            candidates: assoc_candidates(
                                c.impls_of[d.0]@,
                                c.assoc_items,
                            ),
                            ident: unresolved_segments@[0].node.ident.node.name@,
                            resolved_args: arg_ids(resolved_segments@.last().node.args@),
                            unresolved_args: arg_ids(unresolved_segments@[0].node.args@),
                        },
                        seq![],
                    ),
                )
            } else {
                None
            },
            _ => None,
        },
    }
}

/// A generic parameter that lowering takes: a type parameter whose parent
/// has collected generics in which it is found.
pub open spec fn param_lowers(c: LowerTables, p: HirNode<hir::GenericParam>) -> bool {
    &&& p.node.kind is Type
    &&& c.parent_map.contains_key(p.node.def_id.0)
    &&& c.generics_of.contains_key(c.parent_map[p.node.def_id.0].0)
    &&& exists|f: nat|
        spec_param_index(c.generics_of[c.parent_map[p.node.def_id.0].0], p.node.def_id, c.generics_of, f) is Some
}

/// A generic parameter as an argument: the parameter itself, by its index.
pub open spec fn param_arg(c: LowerTables, p: HirNode<hir::GenericParam>) -> ArgModel {
    ArgModel::Type(
        TyModel::GenericParam(
            param_index_of(c.generics_of[c.parent_map[p.node.def_id.0].0], p.node.def_id, c.generics_of),
        ),
    )
}

/// What lowering gives with the least fuel that lowers the type fully.
pub open spec fn lower_result(c: LowerTables, t: HirNode<hir::Ty>) -> (TyModel, Seq<ErrorModel>) {
    lowered_ty(c, t, choose|f: nat| lowered_ty(c, t, f) is Some)->0
}

/// If a list lowers, so does each prefix and each element.
pub proof fn lemma_lowered_tys_prefix(c: LowerTables, ts: Seq<HirNode<hir::Ty>>, k: int, fuel: nat)
    requires
        lowered_tys(c, ts, fuel) is Some,
        0 <= k < ts.len(),
    ensures
        lowered_tys(c, ts.take(k), fuel) is Some,
        lowered_ty(c, ts[k], fuel) is Some,
        ts.take(k + 1).drop_last() == ts.take(k),
        ts.take(k + 1).last() == ts[k],
    decreases ts.len(),
{
    assert(ts.take(k + 1).drop_last() =~= ts.take(k));
    if k == ts.len() - 1 {
        assert(ts.take(k) =~= ts.drop_last());
    } else {
        lemma_lowered_tys_prefix(c, ts.drop_last(), k, fuel);
        assert(ts.drop_last().take(k) =~= ts.take(k));
    }
}

/// If a list of generic arguments lowers, so does each prefix and each
/// element.
pub proof fn lemma_lowered_args_prefix(c: LowerTables, args: Seq<HirNode<hir::GenericArg>>, k: int, fuel: nat)
    requires
        lowered_args(c, args, fuel) is Some,
        0 <= k < args.len(),
    ensures
        lowered_args(c, args.take(k), fuel) is Some,
        args[k].node is Type,
        lowered_ty(c, args[k].node->Type_0, fuel) is Some,
        args.take(k + 1).drop_last() == args.take(k),
        args.take(k + 1).last() == args[k],
    decreases args.len(),
{
    assert(args.take(k + 1).drop_last() =~= args.take(k));
    if k == args.len() - 1 {
        assert(args.take(k) =~= args.drop_last());
    } else {
        lemma_lowered_args_prefix(c, args.drop_last(), k, fuel);
        assert(args.drop_last().take(k) =~= args.take(k));
    }
}

/// The ids of the generic arguments.
fn ids_of_args(args: &Vec<HirNode<hir::GenericArg>>) -> (v: Vec<HirId>)
    ensures
        v@ == arg_ids(args@),
{
    let mut v: Vec<HirId> = Vec::new();
    let mut i: usize = 0;
    while i < args.len()
        invariant
            i <= args.len(),
            v@ == arg_ids(args@.take(i as int)),
        decreases args.len() - i,
    {
        v.push(args[i].hir_id);
        i = i + 1;
        assert(v@ =~= arg_ids(args@.take(i as int)));
    }
    assert(args@.take(args.len() as int) =~= args@);
    v
}

impl<'a> TypeCollector<'a> {
    pub fn new(parent_map: HashMap<usize, DefId>, aliases: HashMap<usize, &'a HirNode<hir::Ty>>) -> (tc: TypeCollector<'a>)
        ensures
            tc.tables() == (LowerTables {
                type_of: Map::empty(),
                generics_of: Map::empty(),
                collecting: Map::empty(),
                parent_map: parent_map@,
                aliases: aliases@.map_values(|t: &HirNode<hir::Ty>| *t),
                impls_of: Map::empty(),
                assoc_items: Map::empty(),
            }),
            tc.errors@.len() == 0,
    {
        let tc = TypeCollector {
            collected_types: CollectedTypes::new(),
            collecting: HashMap::new(),
            parent_map,
            aliases,
            errors: Vec::new(),
        };
        assert(tc.tables().type_of =~= Map::empty());
        tc
    }

    /// Everything but the errors is as in `other`.
    pub open spec fn same_tables(&self, other: &Self) -> bool {
        &&& self.collected_types == other.collected_types
        &&& self.collecting@ == other.collecting@
        &&& self.parent_map == other.parent_map
        &&& self.aliases == other.aliases
    }

    /// Lowers a written type (`lower_result` says what it gives), reporting
    /// what is wrong with it.
    pub fn lower_ty(&mut self, t: &HirNode<hir::Ty>) -> (r: Ty)
        requires
            exists|f: nat| lowered_ty(old(self).tables(), *t, f) is Some,
        ensures
            final(self).same_tables(old(self)),
            r.model() == lower_result(old(self).tables(), *t).0,
            errs_model(final(self).errors@) == errs_model(old(self).errors@) + lower_result(old(self).tables(), *t).1,
    {
        let ghost fuel = choose|f: nat| lowered_ty(old(self).tables(), *t, f) is Some;
        self.lower_ty_fuel(t, Ghost(fuel))
    }

    fn lower_ty_fuel(&mut self, t: &HirNode<hir::Ty>, Ghost(fuel): Ghost<nat>) -> (r: Ty)
        requires
            lowered_ty(old(self).tables(), *t, fuel) is Some,
        ensures
            final(self).same_tables(old(self)),
            r.model() == lowered_ty(old(self).tables(), *t, fuel).unwrap().0,
            errs_model(final(self).errors@) == errs_model(old(self).errors@) + lowered_ty(
                old(self).tables(),
                *t,
                fuel,
            ).unwrap().1,
        decreases fuel, t,
    {
        match &t.node {
            hir::Ty::Path(p) => self.lower_path_fuel(t.span, p, Ghost(fuel)),
            hir::Ty::Array(e, _) => {
                let inner = self.lower_ty_fuel(e, Ghost(fuel));
                Ty::Slice(Box::new(inner))
            },
            hir::Ty::Ptr(e) => {
                let inner = self.lower_ty_fuel(e, Ghost(fuel));
                Ty::Ptr(Box::new(inner))
            },
            hir::Ty::Fn(ps, ret) => {
                let ghost e0 = errs_model(self.errors@);
                let params = self.lower_tys_fuel(ps, Ghost(fuel));
                let ghost e1 = errs_model(self.errors@);
                let return_ty = match ret {
                    Some(rt) => self.lower_ty_fuel(rt, Ghost(fuel)),
                    None => Ty::Unit,
                };
                proof {
                    let tab = old(self).tables();
                    let pr = lowered_tys(tab, ps@, fuel)->0;
                    match ret {
                        Some(rt) => {
                            let rr = lowered_ty(tab, **rt, fuel)->0;
                            assert(errs_model(self.errors@) =~= e0 + (pr.1 + rr.1));
                        },
                        None => {
                            assert(errs_model(self.errors@) =~= e0 + pr.1);
                        },
                    }
                }
                Ty::FnPtr(params, Box::new(return_ty))
            },
            hir::Ty::Tuple(ts) => {
                if ts.len() == 0 {
                    assert(errs_model(self.errors@) =~= errs_model(old(self).errors@) + seq![]);
                    Ty::Unit
                } else {
                    let elems = self.lower_tys_fuel(ts, Ghost(fuel));
                    Ty::Tuple(elems)
                }
            },
        }
    }

    fn lower_tys_fuel(&mut self, ts: &Vec<HirNode<hir::Ty>>, Ghost(fuel): Ghost<nat>) -> (r: Vec<Ty>)
        requires
            lowered_tys(old(self).tables(), ts@, fuel) is Some,
        ensures
            final(self).same_tables(old(self)),
            tys_model(r@) == lowered_tys(old(self).tables(), ts@, fuel).unwrap().0,
            errs_model(final(self).errors@) == errs_model(old(self).errors@) + lowered_tys(
                old(self).tables(),
                ts@,
                fuel,
            ).unwrap().1,
        decreases fuel, ts,
    {
        let ghost tab = old(self).tables();
        let mut out: Vec<Ty> = Vec::new();
        let mut i: usize = 0;
        assert(ts@.take(0) =~= Seq::<HirNode<hir::Ty>>::empty());
        assert(errs_model(self.errors@) =~= errs_model(old(self).errors@) + seq![]);
        assert(tys_model(out@) =~= seq![]);
        while i < ts.len()
            invariant
                i <= ts.len(),
                self.same_tables(old(self)),
                tab == old(self).tables(),
                lowered_tys(tab, ts@, fuel) is Some,
                lowered_tys(tab, ts@.take(i as int), fuel) is Some,
                tys_model(out@) == lowered_tys(tab, ts@.take(i as int), fuel).unwrap().0,
                errs_model(self.errors@) == errs_model(old(self).errors@) + lowered_tys(
                    tab,
                    ts@.take(i as int),
                    fuel,
                ).unwrap().1,
            decreases ts.len() - i,
        {
            proof {
                lemma_lowered_tys_prefix(tab, ts@, i as int, fuel);
                assert(decreases_to!(*ts => ts[i as int]));
            }
            let ghost before = out@;
            let ghost e0 = errs_model(self.errors@);
            let t = self.lower_ty_fuel(&ts[i], Ghost(fuel));
            out.push(t);
            proof {
                let init = lowered_tys(tab, ts@.take(i as int), fuel)->0;
                let rr = lowered_ty(tab, ts@[i as int], fuel)->0;
                assert(tys_model(out@) =~= tys_model(before).push(t.model()));
                assert(errs_model(self.errors@) =~= errs_model(old(self).errors@) + (init.1 + rr.1));
            }
            i = i + 1;
        }
        assert(ts@.take(ts.len() as int) =~= ts@);
        out
    }

    fn lower_args_fuel(&mut self, args: &Vec<HirNode<hir::GenericArg>>, Ghost(fuel): Ghost<nat>) -> (r: Vec<GenericArg>)
        requires
            lowered_args(old(self).tables(), args@, fuel) is Some,
        ensures
            final(self).same_tables(old(self)),
            args_model(r@) == lowered_args(old(self).tables(), args@, fuel).unwrap().0,
            errs_model(final(self).errors@) == errs_model(old(self).errors@) + lowered_args(
                old(self).tables(),
                args@,
                fuel,
            ).unwrap().1,
        decreases fuel, args,
    {
        let ghost tab = old(self).tables();
        let mut out: Vec<GenericArg> = Vec::new();
        let mut i: usize = 0;
        assert(args@.take(0) =~= Seq::<HirNode<hir::GenericArg>>::empty());
        assert(errs_model(self.errors@) =~= errs_model(old(self).errors@) + seq![]);
        assert(args_model(out@) =~= seq![]);
        while i < args.len()
            invariant
                i <= args.len(),
                self.same_tables(old(self)),
                tab == old(self).tables(),
                lowered_args(tab, args@, fuel) is Some,
                lowered_args(tab, args@.take(i as int), fuel) is Some,
                args_model(out@) == lowered_args(tab, args@.take(i as int), fuel).unwrap().0,
                errs_model(self.errors@) == errs_model(old(self).errors@) + lowered_args(
                    tab,
                    args@.take(i as int),
                    fuel,
                ).unwrap().1,
            decreases args.len() - i,
        {
            proof {
                lemma_lowered_args_prefix(tab, args@, i as int, fuel);
                assert(decreases_to!(*args => args[i as int]));
            }
            let ghost before = out@;
            let ghost e0 = errs_model(self.errors@);
            let a = match &args[i].node {
                hir::GenericArg::Type(t) => {
                    let lowered = self.lower_ty_fuel(t, Ghost(fuel));
                    GenericArg::Type(lowered)
                },
                hir::GenericArg::Const(_) => {
                    proof {
                        assert(false);
                    }
                    GenericArg::Type(Ty::Error)
                },
            };
            out.push(a);
            proof {
                let init = lowered_args(tab, args@.take(i as int), fuel)->0;
                let rr = lowered_ty(tab, args@[i as int].node->Type_0, fuel)->0;
                assert(args_model(out@) =~= args_model(before).push(a.model()));
                assert(errs_model(self.errors@) =~= errs_model(old(self).errors@) + (init.1 + rr.1));
            }
            i = i + 1;
        }
        assert(args@.take(args.len() as int) =~= args@);
        out
    }

    fn lower_path_fuel(&mut self, span: Span, p: &HirNode<Path>, Ghost(fuel): Ghost<nat>) -> (r: Ty)
        requires
            lowered_path(old(self).tables(), span, *p, fuel) is Some,
        ensures
            final(self).same_tables(old(self)),
            r.model() == lowered_path(old(self).tables(), span, *p, fuel).unwrap().0,
            errs_model(final(self).errors@) == errs_model(old(self).errors@) + lowered_path(
                old(self).tables(),
                span,
                *p,
                fuel,
            ).unwrap().1,
        decreases fuel, p,
    {
        let ghost tab = old(self).tables();
        assert(errs_model(self.errors@) =~= errs_model(old(self).errors@) + seq![]);
        match &p.node {
            Path::Resolved { res, segments } => match res {
                Res::Local(_) => {
                    proof {
                        assert(false);
                    }
                    Ty::Error
                },
                Res::Def(d, kind) => match kind {
                    DefKind::Struct => self.lower_adt_fuel(*d, true, segments, Ghost(fuel)),
                    DefKind::Enum => self.lower_adt_fuel(*d, false, segments, Ghost(fuel)),
                    DefKind::Function | DefKind::ExternFn | DefKind::AssocFn => self.collected_type_of(*d),
                    DefKind::TypeAlias => {
                        let state = match self.collecting.get(&d.0) {
                            Some(st) => Some(*st),
                            None => None,
                        };
                        match state {
                            Some(CollectState::Done) => self.collected_type_of(*d),
                            Some(CollectState::InProgress) => {
                                let name = segments[segments.len() - 1].node.ident.node.name.clone();
                                let e = TypeCheckerError::CyclicTypeDefinition { span, name };
                                self.errors.push(e);
                                assert(errs_model(self.errors@) =~= errs_model(old(self).errors@) + seq![
                                    e.model(),
                                ]);
                                Ty::Error
                            },
                            None => {
                                let alias: &'a HirNode<hir::Ty> = match self.aliases.get(&d.0) {
                                    Some(a) => *a,
                                    None => {
                                        proof {
                                            assert(false);
                                        }
                                        return Ty::Error;
                                    },
                                };
                                self.collecting.insert(d.0, CollectState::InProgress);
                                assert(self.tables() == alias_in_progress(tab, *d));
                                let lowered = self.lower_ty_fuel(alias, Ghost((fuel - 1) as nat));
                                self.collecting.remove(&d.0);
                                assert(self.collecting@ =~= old(self).collecting@);
                                lowered
                            },
                        }
                    },
                    DefKind::TypeParam => {
                        let parent = match self.parent_map.get(&d.0) {
                            Some(parent) => *parent,
                            None => {
                                proof {
                                    assert(false);
                                }
                                return Ty::Error;
                            },
                        };
                        match self.collected_types.generics_of.get(&parent.0) {
                            Some(g) => {
                                let index = g.get_index(*d, &self.collected_types.generics_of);
                                Ty::GenericParam(index)
                            },
                            None => Ty::Error,
                        }
                    },
                    _ => {
                        proof {
                            assert(false);
                        }
                        Ty::Error
                    },
                },
                Res::PrimTy(prim) => match prim {
                    PrimTy::I32 => Ty::I32,
                    PrimTy::U32 => Ty::U32,
                    PrimTy::F64 => Ty::F64,
                    PrimTy::Bool => Ty::Bool,
                    PrimTy::Str => Ty::Str,
                },
                Res::SelfTy(k) => match k {
                    SelfTyKind::AdtDef { alias_to } => self.collected_type_of(*alias_to),
                    SelfTyKind::TraitDef { .. } => Ty::GenericParam(0),
                    SelfTyKind::Impl { impl_block } => self.collected_type_of(*impl_block),
                },
                Res::Error => Ty::Error,
            },
            Path::Unresolved { res, resolved_segments, unresolved_segments } => match res {
                Res::Def(d, _) => {
                    let impls = match self.collected_types.impls_of.get(&d.0) {
                        Some(impls) => impls,
                        None => {
                            proof {
                                assert(false);
                            }
                            return Ty::Error;
                        },
                    };
                    let candidates = self.candidates_of(impls);
                    let path = &unresolved_segments[0];
                    let resolved = &resolved_segments[resolved_segments.len() - 1];
                    Ty::InherentTyAlias {
                        candidates,
                        ident: clone_ident(&path.node.ident.node),
                        resolved_args: ids_of_args(&resolved.node.args),
                        unresolved_args: ids_of_args(&path.node.args),
                    }
                },
                _ => {
                    proof {
                        assert(false);
                    }
                    Ty::Error
                },
            },
        }
    }

    /// The associated items of the impls, impl after impl.
    fn candidates_of(&self, impls: &Vec<DefId>) -> (r: Vec<DefId>)
        requires
            forall|i: int|
                0 <= i < impls@.len() ==> self.collected_types.assoc_items@.contains_key(#[trigger] impls@[i].0),
        ensures
            r@ == assoc_candidates(impls@, self.collected_types.assoc_items@),
    {
        let mut out: Vec<DefId> = Vec::new();
        let mut i: usize = 0;
        assert(impls@.take(0) =~= Seq::<DefId>::empty());
        while i < impls.len()
            invariant
                i <= impls.len(),
                forall|j: int|
                    0 <= j < impls@.len() ==> self.collected_types.assoc_items@.contains_key(#[trigger] impls@[j].0),
                out@ == assoc_candidates(impls@.take(i as int), self.collected_types.assoc_items@),
            decreases impls.len() - i,
        {
            let items = match self.collected_types.assoc_items.get(&impls[i].0) {
                Some(items) => items,
                None => {
                    proof {
                        assert(false);
                    }
                    return out;
                },
            };
            let ghost before = out@;
            let mut j: usize = 0;
            while j < items.len()
                invariant
                    j <= items.len(),
                    out@ == before + items@.take(j as int).map_values(|a: AssocItemDef| a.def_id),
                decreases items.len() - j,
            {
                out.push(items[j].def_id);
                j = j + 1;
                assert(out@ =~= before + items@.take(j as int).map_values(|a: AssocItemDef| a.def_id));
            }
            proof {
                assert(items@.take(items.len() as int) =~= items@);
                assert(impls@.take(i + 1).drop_last() =~= impls@.take(i as int));
            }
            i = i + 1;
        }
        assert(impls@.take(impls.len() as int) =~= impls@);
        out
    }

    /// The generic parameters of a definition as arguments to it, each the
    /// parameter itself.
    pub fn lower_generic_params(&self, params: &[HirNode<hir::GenericParam>]) -> (r: Vec<GenericArg>)
        requires
            forall|i: int| 0 <= i < params@.len() ==> param_lowers(self.tables(), #[trigger] params@[i]),
        ensures
            args_model(r@) == params@.map_values(|p: HirNode<hir::GenericParam>| param_arg(self.tables(), p)),
    {
        let mut out: Vec<GenericArg> = Vec::new();
        let mut i: usize = 0;
        while i < params.len()
            invariant
                i <= params@.len(),
                forall|k: int| 0 <= k < params@.len() ==> param_lowers(self.tables(), #[trigger] params@[k]),
                args_model(out@) == params@.take(i as int).map_values(
                    |p: HirNode<hir::GenericParam>| param_arg(self.tables(), p),
                ),
            decreases params@.len() - i,
        {
            let param = &params[i];
            assert(param_lowers(self.tables(), params@[i as int]));
            let parent = match self.parent_map.get(&param.node.def_id.0) {
                Some(parent) => *parent,
                None => {
                    proof {
                        assert(false);
                    }
                    return out;
                },
            };
            let index = match self.collected_types.generics_of.get(&parent.0) {
                Some(g) => g.get_index(param.node.def_id, &self.collected_types.generics_of),
                None => 0,
            };
            let ghost before = out@;
            let arg = GenericArg::Type(Ty::GenericParam(index));
            assert(arg.model() == param_arg(self.tables(), params@[i as int]));
            out.push(arg);
            assert(args_model(out@) =~= args_model(before).push(arg.model()));
            i = i + 1;
            assert(args_model(out@) =~= params@.take(i as int).map_values(
                |p: HirNode<hir::GenericParam>| param_arg(self.tables(), p),
            ));
        }
        assert(params@.take(params@.len() as int) =~= params@);
        out
    }

    /// A copy of the collected type of definition `d`.
    fn collected_type_of(&self, d: DefId) -> (r: Ty)
        requires
            self.collected_types.type_of@.contains_key(d.0),
        ensures
            r.model() == self.collected_types.type_of@[d.0].model(),
    {
        match self.collected_types.type_of.get(&d.0) {
            Some(t) => clone_ty(t),
            None => Ty::Error,
        }
    }

    fn lower_adt_fuel(
        &mut self,
        d: DefId,
        is_struct: bool,
        segments: &Vec<HirNode<hir::PathSegment>>,
        Ghost(fuel): Ghost<nat>,
    ) -> (r: Ty)
        requires
            lowered_adt(old(self).tables(), d, is_struct, segments@, fuel) is Some,
        ensures
            final(self).same_tables(old(self)),
            r.model() == lowered_adt(old(self).tables(), d, is_struct, segments@, fuel).unwrap().0,
            errs_model(final(self).errors@) == errs_model(old(self).errors@) + lowered_adt(
                old(self).tables(),
                d,
                is_struct,
                segments@,
                fuel,
            ).unwrap().1,
        decreases fuel, segments,
    {
        let last = &segments[segments.len() - 1];
        let expected = match self.collected_types.generics_of.get(&d.0) {
            Some(g) => g.params.len(),
            None => 0,
        };
        proof {
            assert(decreases_to!(*segments => segments@.last()));
        }
        let ghost e0 = errs_model(self.errors@);
        let args = self.lower_args_fuel(&last.node.args, Ghost(fuel));
        let ghost e1 = errs_model(self.errors@);
        if expected != args.len() {
            let e = TypeCheckerError::GenericArgArityMismatch {
                span: last.span,
                name: last.node.ident.node.name.clone(),
                expected,
                found: args.len(),
            };
            self.errors.push(e);
            proof {
                assert(errs_model(self.errors@) =~= e1.push(e.model()));
            }
        }
        proof {
            let r = lowered_args(old(self).tables(), last.node.args@, fuel)->0;
            assert(args_model(args@).len() == args@.len());
            if expected != args.len() {
                assert(errs_model(self.errors@) =~= e0 + (r.1 + seq![
                    ErrorModel::GenericArgArityMismatch {
                        span: last.span,
                        name: last.node.ident.node.name@,
                        expected: expected as nat,
                        found: args@.len(),
                    },
                ]));
            } else {
                assert(errs_model(self.errors@) =~= e0 + (r.1 + seq![]));
            }
        }
        if is_struct {
            Ty::Struct(d, args)
        } else {
            Ty::Enum(d, args)
        }
    }
}

} // verus!
