use crate::span::Span;
use crate::type_checker::error::TypeCheckerError;
use crate::type_checker::model::{ArgModel, TyModel};
use crate::type_checker::pretty::pretty;
use crate::type_checker::ty::{InferTy, Ty, TyVarId};
use vstd::prelude::*;

verus! {

/// The bindings of the inference variables, as mathematical types.
pub open spec fn map_model(m: Map<u32, Ty>) -> Map<u32, TyModel> {
    m.map_values(|t: Ty| t.model())
}

/// The number of an inference variable, if `t` is one.
pub open spec fn infer_var(t: TyModel) -> Option<u32> {
    match t {
        TyModel::Infer(InferTy::TyVar(v)) => Some(v.0),
        TyModel::Infer(InferTy::IntVar(v)) => Some(v.0),
        _ => None,
    }
}

/// `t` with bound inference variables replaced by what they are bound
/// to, at the top only, following at most `fuel` bindings.
pub open spec fn shallow(m: Map<u32, TyModel>, t: TyModel, fuel: nat) -> TyModel
    decreases fuel,
{
    if fuel == 0 {
        t
    } else {
        match infer_var(t) {
            Some(v) => if m.contains_key(v) {
                shallow(m, m[v], (fuel - 1) as nat)
            } else {
                t
            },
            None => t,
        }
    }
}

/// `shallow` with as many steps as there are bindings: a chain of
/// bindings that visits no variable twice is followed to its end.
pub open spec fn resolve_top(m: Map<u32, TyModel>, t: TyModel) -> TyModel {
    shallow(m, t, m.len())
}

/// A type that is not a bound variable is its own shallow resolution.
pub proof fn lemma_shallow_unbound(m: Map<u32, TyModel>, t: TyModel, fuel: nat)
    requires
        infer_var(t) is None || !m.contains_key(infer_var(t)->0),
    ensures
        shallow(m, t, fuel) == t,
{
}

/// `t` with every inference variable, at any depth, replaced by what it is
/// bound to, at most `depth` levels down.
pub open spec fn deep(m: Map<u32, TyModel>, t: TyModel, depth: nat) -> TyModel
    decreases depth, 0nat,
{
    let r = resolve_top(m, t);
    if depth == 0 {
        r
    } else {
        let d = (depth - 1) as nat;
        match r {
            TyModel::Array(e, c) => TyModel::Array(Box::new(deep(m, *e, d)), c),
            TyModel::Slice(e) => TyModel::Slice(Box::new(deep(m, *e, d))),
            TyModel::Tuple(ts) => TyModel::Tuple(Seq::new(ts.len(), |i: int| deep(m, ts[i], d))),
            TyModel::Ptr(e) => TyModel::Ptr(Box::new(deep(m, *e, d))),
            TyModel::FnPtr(ps, ret) => TyModel::FnPtr(
                Seq::new(ps.len(), |i: int| deep(m, ps[i], d)),
                Box::new(deep(m, *ret, d)),
            ),
            TyModel::Fn(id, a) => TyModel::Fn(id, Seq::new(a.len(), |i: int| deep_arg(m, a[i], d))),
            TyModel::Struct(id, a) => TyModel::Struct(id, Seq::new(a.len(), |i: int| deep_arg(m, a[i], d))),
            TyModel::Enum(id, a) => TyModel::Enum(id, Seq::new(a.len(), |i: int| deep_arg(m, a[i], d))),
            _ => r,
        }
    }
}

pub open spec fn deep_arg(m: Map<u32, TyModel>, a: ArgModel, depth: nat) -> ArgModel
    decreases depth, 1nat,
{
    match a {
        ArgModel::Type(t) => ArgModel::Type(deep(m, t, depth)),
        ArgModel::Const(c) => ArgModel::Const(c),
    }
}

/// Whether resolving `t` deeply meets none of the cases that the type
/// checker does not handle: the error type, an associated type alias,
/// or a constant argument.
pub open spec fn deep_ok(m: Map<u32, TyModel>, t: TyModel, depth: nat) -> bool
    decreases depth, 0nat,
{
    let r = resolve_top(m, t);
    if depth == 0 {
        true
    } else {
        let d = (depth - 1) as nat;
        match r {
            TyModel::Error => false,
            TyModel::InherentTyAlias { .. } => false,
            TyModel::Array(e, _) => deep_ok(m, *e, d),
            TyModel::Slice(e) => deep_ok(m, *e, d),
            TyModel::Tuple(ts) => forall|i: int| 0 <= i < ts.len() ==> deep_ok(m, #[trigger] ts[i], d),
            TyModel::Ptr(e) => deep_ok(m, *e, d),
            TyModel::FnPtr(ps, ret) => (forall|i: int| 0 <= i < ps.len() ==> deep_ok(m, #[trigger] ps[i], d))
                && deep_ok(m, *ret, d),
            TyModel::Fn(_, a) => forall|i: int| 0 <= i < a.len() ==> deep_arg_ok(m, #[trigger] a[i], d),
            TyModel::Struct(_, a) => forall|i: int| 0 <= i < a.len() ==> deep_arg_ok(m, #[trigger] a[i], d),
            TyModel::Enum(_, a) => forall|i: int| 0 <= i < a.len() ==> deep_arg_ok(m, #[trigger] a[i], d),
            _ => true,
        }
    }
}

pub open spec fn deep_arg_ok(m: Map<u32, TyModel>, a: ArgModel, depth: nat) -> bool
    decreases depth, 1nat,
{
    match a {
        ArgModel::Type(t) => deep_ok(m, t, depth),
        ArgModel::Const(_) => false,
    }
}

/// `t` with each generic parameter `i` replaced by the type `s[i]`.
pub open spec fn inst(t: TyModel, s: Seq<ArgModel>) -> TyModel
    decreases t,
{
    match t {
        TyModel::Array(e, c) => TyModel::Array(Box::new(inst(*e, s)), c),
        TyModel::Slice(e) => TyModel::Slice(Box::new(inst(*e, s))),
        TyModel::Tuple(ts) => TyModel::Tuple(
            Seq::new(
                ts.len(),
                |i: int|
                    if 0 <= i < ts.len() {
                        inst(ts[i], s)
                    } else {
                        TyModel::Error
                    },
            ),
        ),
        TyModel::Ptr(e) => TyModel::Ptr(Box::new(inst(*e, s))),
        TyModel::FnPtr(ps, ret) => TyModel::FnPtr(
            Seq::new(
                ps.len(),
                |i: int|
                    if 0 <= i < ps.len() {
                        inst(ps[i], s)
                    } else {
                        TyModel::Error
                    },
            ),
            Box::new(inst(*ret, s)),
        ),
        TyModel::Fn(id, a) => TyModel::Fn(id, inst_args(a, s)),
        TyModel::Struct(id, a) => TyModel::Struct(id, inst_args(a, s)),
        TyModel::Enum(id, a) => TyModel::Enum(id, inst_args(a, s)),
        TyModel::GenericParam(i) => if i < s.len() {
            match s[i as int] {
                ArgModel::Type(u) => u,
                ArgModel::Const(_) => t,
            }
        } else {
            t
        },
        _ => t,
    }
}

pub open spec fn inst_args(a: Seq<ArgModel>, s: Seq<ArgModel>) -> Seq<ArgModel>
    decreases a,
{
    Seq::new(
        a.len(),
        |i: int|
            if 0 <= i < a.len() {
                match a[i] {
                    ArgModel::Type(u) => ArgModel::Type(inst(u, s)),
                    ArgModel::Const(c) => ArgModel::Const(c),
                }
            } else {
                ArgModel::Type(TyModel::Error)
            },
    )
}

/// Whether substituting into `t` meets none of the cases that the type
/// checker does not handle: an array type, an associated type alias, a
/// constant argument, or a parameter without a type at its index.
pub open spec fn inst_ok(t: TyModel, s: Seq<ArgModel>) -> bool
    decreases t,
{
    match t {
        TyModel::Array(_, _) => false,
        TyModel::InherentTyAlias { .. } => false,
        TyModel::Slice(e) => inst_ok(*e, s),
        TyModel::Tuple(ts) => forall|i: int| 0 <= i < ts.len() ==> inst_ok(#[trigger] ts[i], s),
        TyModel::Ptr(e) => inst_ok(*e, s),
        TyModel::FnPtr(ps, ret) => (forall|i: int| 0 <= i < ps.len() ==> inst_ok(#[trigger] ps[i], s))
            && inst_ok(*ret, s),
        TyModel::Fn(_, a) => inst_args_ok(a, s),
        TyModel::Struct(_, a) => inst_args_ok(a, s),
        TyModel::Enum(_, a) => inst_args_ok(a, s),
        TyModel::GenericParam(i) => i < s.len() && s[i as int] is Type,
        _ => true,
    }
}

pub open spec fn inst_args_ok(a: Seq<ArgModel>, s: Seq<ArgModel>) -> bool
    decreases a,
{
    forall|i: int|
        0 <= i < a.len() ==> match #[trigger] a[i] {
            ArgModel::Type(u) => inst_ok(u, s),
            ArgModel::Const(_) => false,
        }
}

/// The element types of a tuple, or the parameter types of a function pointer.
pub open spec fn elems_of(t: TyModel) -> Seq<TyModel> {
    match t {
        TyModel::Tuple(ts) => ts,
        TyModel::FnPtr(ps, _) => ps,
        _ => Seq::empty(),
    }
}

/// The generic arguments of a function, struct or enum type.
pub open spec fn args_of(t: TyModel) -> Seq<ArgModel> {
    match t {
        TyModel::Fn(_, a) => a,
        TyModel::Struct(_, a) => a,
        TyModel::Enum(_, a) => a,
        _ => Seq::empty(),
    }
}

/// A type mismatch as recorded: the two spans, then the expected and the
/// found type as written.
pub type MismatchModel = (Span, Span, Seq<char>, Seq<char>);

/// The mismatch an error records, if it is one.
pub open spec fn err_model(e: TypeCheckerError) -> Option<MismatchModel> {
    match e {
        TypeCheckerError::TypeMismatch { expected_span, found_span, expected, found } => Some(
            (expected_span, found_span, expected@, found@),
        ),
        _ => None,
    }
}

pub open spec fn errors_model(v: Seq<TypeCheckerError>) -> Seq<Option<MismatchModel>> {
    v.map_values(|e: TypeCheckerError| err_model(e))
}

/// What unification works on: the bindings, the errors so far, and whether
/// no case that the type checker does not handle was met.
pub struct UnifyState {
    pub map: Map<u32, TyModel>,
    pub errs: Seq<Option<MismatchModel>>,
    pub ok: bool,
}

/// The primitive types that unify with themselves.
pub open spec fn same_prim(f: TyModel, e: TyModel) -> bool {
    ||| (f is I32 && e is I32)
    ||| (f is U32 && e is U32)
    ||| (f is F64 && e is F64)
    ||| (f is Str && e is Str)
    ||| (f is Bool && e is Bool)
    ||| (f is Unit && e is Unit)
}

pub open spec fn bind(st: UnifyState, v: u32, t: TyModel) -> UnifyState {
    UnifyState { map: st.map.insert(v, t), ..st }
}

pub open spec fn mismatch(st: UnifyState, found: TyModel, expected: TyModel) -> UnifyState {
    UnifyState {
        errs: st.errs.push(Some((Span { offset: 0, len: 0 }, Span { offset: 0, len: 0 }, pretty(expected), pretty(found)))),
        ..st
    }
}

/// Unifies the type found with the type expected: both are resolved at the
/// top; equal primitive types agree; an unbound variable is bound to the
/// other side; tuples, and structs or enums of one definition, unify part
/// by part (at most `depth` levels down); anything else is a mismatch.
pub open spec fn unify(st: UnifyState, found: TyModel, expected: TyModel, depth: nat) -> UnifyState
    decreases depth, 0nat, 0nat,
{
    if !st.ok {
        st
    } else {
        let f = resolve_top(st.map, found);
        let e = resolve_top(st.map, expected);
        if same_prim(f, e) {
            st
        } else {
            match (f, e) {
                (TyModel::Infer(InferTy::IntVar(a)), TyModel::Infer(InferTy::IntVar(b))) => bind(st, a.0, e),
                (TyModel::Infer(InferTy::TyVar(a)), _) => bind(st, a.0, e),
                (_, TyModel::Infer(InferTy::TyVar(b))) => bind(st, b.0, f),
                (TyModel::Infer(InferTy::IntVar(a)), TyModel::I32) => bind(st, a.0, TyModel::I32),
                (TyModel::I32, TyModel::Infer(InferTy::IntVar(b))) => bind(st, b.0, TyModel::I32),
                (TyModel::Infer(InferTy::IntVar(a)), TyModel::U32) => bind(st, a.0, TyModel::U32),
                (TyModel::U32, TyModel::Infer(InferTy::IntVar(b))) => bind(st, b.0, TyModel::U32),
                (TyModel::Tuple(fs), TyModel::Tuple(es)) => if depth == 0 {
                    st
                } else {
                    unify_tys(st, fs, es, (depth - 1) as nat)
                },
                (TyModel::Struct(d1, a1), TyModel::Struct(d2, a2)) => if d1 != d2 {
                    mismatch(st, f, e)
                } else if depth == 0 {
                    st
                } else {
                    unify_args(st, a1, a2, (depth - 1) as nat)
                },
                (TyModel::Enum(d1, a1), TyModel::Enum(d2, a2)) => if d1 != d2 {
                    mismatch(st, f, e)
                } else if depth == 0 {
                    st
                } else {
                    unify_args(st, a1, a2, (depth - 1) as nat)
                },
                (TyModel::GenericParam(i), TyModel::GenericParam(j)) => if i == j {
                    st
                } else {
                    UnifyState { ok: false, ..st }
                },
                _ => mismatch(st, f, e),
            }
        }
    }
}

/// Unifies the types pairwise, in order, as far as the shorter list goes.
pub open spec fn unify_tys(st: UnifyState, fs: Seq<TyModel>, es: Seq<TyModel>, depth: nat) -> UnifyState
    decreases depth, 1nat, fs.len(),
{
    if !st.ok || fs.len() == 0 || es.len() == 0 {
        st
    } else {
        unify_tys(unify(st, fs[0], es[0], depth), fs.drop_first(), es.drop_first(), depth)
    }
}

/// Unifies the generic arguments pairwise, in order, as far as the shorter
/// list goes; a constant argument is a case the type checker does not handle.
pub open spec fn unify_args(st: UnifyState, fs: Seq<ArgModel>, es: Seq<ArgModel>, depth: nat) -> UnifyState
    decreases depth, 1nat, fs.len(),
{
    if !st.ok || fs.len() == 0 || es.len() == 0 {
        st
    } else {
        let next = match (fs[0], es[0]) {
            (ArgModel::Type(a), ArgModel::Type(b)) => unify(st, a, b, depth),
            _ => UnifyState { ok: false, ..st },
        };
        unify_args(next, fs.drop_first(), es.drop_first(), depth)
    }
}

/// A state in which a case the type checker does not handle was met stays so.
pub proof fn lemma_unify_tys_not_ok(st: UnifyState, fs: Seq<TyModel>, es: Seq<TyModel>, d: nat)
    requires
        unify_tys(st, fs, es, d).ok,
    ensures
        st.ok,
{
}

pub proof fn lemma_unify_args_not_ok(st: UnifyState, fs: Seq<ArgModel>, es: Seq<ArgModel>, d: nat)
    requires
        unify_args(st, fs, es, d).ok,
    ensures
        st.ok,
{
}

/// A variable bound to itself resolves to itself, however far it is followed.
proof fn lemma_shallow_self_loop(m: Map<u32, TyModel>, t: TyModel, fuel: nat)
    requires
        infer_var(t) is Some,
        m.contains_key(infer_var(t)->0),
        m[infer_var(t)->0] == t,
    ensures
        shallow(m, t, fuel) == t,
    decreases fuel,
{
    if fuel > 0 {
        lemma_shallow_self_loop(m, t, (fuel - 1) as nat);
    }
}

/// Unifying an unbound type variable with a type binds the variable to what
/// that type resolves to; afterwards the variable resolves to it. (Where
/// that type resolves to a variable that is still bound, which only a cycle
/// of bindings makes happen, the binding is the same but reading it back
/// follows the cycle further.)
pub proof fn law_unify_binds_unbound_var(st: UnifyState, v: u32, t: TyModel, depth: nat)
    requires
        st.ok,
        st.map.dom().finite(),
        !st.map.contains_key(v),
        infer_var(resolve_top(st.map, t)) is None || !st.map.contains_key(infer_var(resolve_top(st.map, t))->0),
    ensures
        unify(st, TyModel::Infer(InferTy::TyVar(TyVarId(v))), t, depth) == bind(st, v, resolve_top(st.map, t)),
        resolve_top(
            unify(st, TyModel::Infer(InferTy::TyVar(TyVarId(v))), t, depth).map,
            TyModel::Infer(InferTy::TyVar(TyVarId(v))),
        ) == resolve_top(st.map, t),
{
    let x = TyModel::Infer(InferTy::TyVar(TyVarId(v)));
    lemma_shallow_unbound(st.map, x, st.map.len());
    let e = resolve_top(st.map, t);
    let m2 = st.map.insert(v, e);
    assert(unify(st, x, t, depth) == bind(st, v, e));
    assert(m2.len() == st.map.len() + 1) by {
        assert(m2.dom() =~= st.map.dom().insert(v));
    }
    assert(shallow(m2, x, m2.len()) == shallow(m2, e, st.map.len()));
    match infer_var(e) {
        Some(u) => {
            if u == v {
                lemma_shallow_self_loop(m2, e, st.map.len());
            } else {
                lemma_shallow_unbound(m2, e, st.map.len());
            }
        },
        None => {
            lemma_shallow_unbound(m2, e, st.map.len());
        },
    }
}

/// Unifying a primitive type with itself changes nothing.
pub proof fn law_unify_same_prim(st: UnifyState, t: TyModel, depth: nat)
    requires
        t is I32 || t is U32 || t is F64 || t is Str || t is Bool || t is Unit,
    ensures
        unify(st, t, t, depth) == st,
{
    if st.ok {
        lemma_shallow_unbound(st.map, t, st.map.len());
    }
}

/// Unification only adds errors: those found before stay, in order.
pub proof fn law_unify_keeps_errors(st: UnifyState, f: TyModel, e: TyModel, depth: nat)
    ensures
        st.errs.is_prefix_of(unify(st, f, e, depth).errs),
    decreases depth, 0nat, 0nat,
{
    if st.ok {
        let rf = resolve_top(st.map, f);
        let re = resolve_top(st.map, e);
        if !same_prim(rf, re) {
            match (rf, re) {
                (TyModel::Infer(InferTy::IntVar(_)), TyModel::Infer(InferTy::IntVar(_))) => {},
                (TyModel::Infer(InferTy::TyVar(_)), _) => {},
                (_, TyModel::Infer(InferTy::TyVar(_))) => {},
                (TyModel::Infer(InferTy::IntVar(_)), TyModel::I32) => {},
                (TyModel::I32, TyModel::Infer(InferTy::IntVar(_))) => {},
                (TyModel::Infer(InferTy::IntVar(_)), TyModel::U32) => {},
                (TyModel::U32, TyModel::Infer(InferTy::IntVar(_))) => {},
                (TyModel::Tuple(fs), TyModel::Tuple(es)) => {
                    if depth > 0 {
                        lemma_tys_keep_errors(st, fs, es, (depth - 1) as nat);
                    }
                },
                (TyModel::Struct(d1, a1), TyModel::Struct(d2, a2)) => {
                    if d1 == d2 && depth > 0 {
                        lemma_args_keep_errors(st, a1, a2, (depth - 1) as nat);
                    }
                },
                (TyModel::Enum(d1, a1), TyModel::Enum(d2, a2)) => {
                    if d1 == d2 && depth > 0 {
                        lemma_args_keep_errors(st, a1, a2, (depth - 1) as nat);
                    }
                },
                _ => {},
            }
        }
    }
}

proof fn lemma_tys_keep_errors(st: UnifyState, fs: Seq<TyModel>, es: Seq<TyModel>, depth: nat)
    ensures
        st.errs.is_prefix_of(unify_tys(st, fs, es, depth).errs),
    decreases depth, 1nat, fs.len(),
{
    if st.ok && fs.len() > 0 && es.len() > 0 {
        let next = unify(st, fs[0], es[0], depth);
        law_unify_keeps_errors(st, fs[0], es[0], depth);
        lemma_tys_keep_errors(next, fs.drop_first(), es.drop_first(), depth);
    }
}

proof fn lemma_args_keep_errors(st: UnifyState, fs: Seq<ArgModel>, es: Seq<ArgModel>, depth: nat)
    ensures
        st.errs.is_prefix_of(unify_args(st, fs, es, depth).errs),
    decreases depth, 1nat, fs.len(),
{
    if st.ok && fs.len() > 0 && es.len() > 0 {
        let next = match (fs[0], es[0]) {
            (ArgModel::Type(a), ArgModel::Type(b)) => unify(st, a, b, depth),
            _ => UnifyState { ok: false, ..st },
        };
        match (fs[0], es[0]) {
            (ArgModel::Type(a), ArgModel::Type(b)) => law_unify_keeps_errors(st, a, b, depth),
            _ => {},
        }
        lemma_args_keep_errors(next, fs.drop_first(), es.drop_first(), depth);
    }
}

/// The substitution that maps each of the first `s.len()` generic
/// parameters to itself.
pub open spec fn is_identity_subst(s: Seq<ArgModel>) -> bool {
    forall|i: int| 0 <= i < s.len() ==> #[trigger] s[i] == ArgModel::Type(TyModel::GenericParam(i as usize))
}

/// Substituting each generic parameter by itself changes nothing.
pub proof fn law_instantiate_identity(t: TyModel, s: Seq<ArgModel>)
    requires
        is_identity_subst(s),
        inst_ok(t, s),
    ensures
        inst(t, s) == t,
    decreases t,
{
    match t {
        TyModel::Slice(e) => {
            law_instantiate_identity(*e, s);
        },
        TyModel::Ptr(e) => {
            law_instantiate_identity(*e, s);
        },
        TyModel::Tuple(ts) => {
            assert forall|i: int| 0 <= i < ts.len() implies inst(ts[i], s) == ts[i] by {
                assert(inst_ok(ts[i], s));
                law_instantiate_identity(ts[i], s);
            }
            assert(elems_of(inst(t, s)) =~= ts);
        },
        TyModel::FnPtr(ps, ret) => {
            assert forall|i: int| 0 <= i < ps.len() implies inst(ps[i], s) == ps[i] by {
                assert(inst_ok(ps[i], s));
                law_instantiate_identity(ps[i], s);
            }
            law_instantiate_identity(*ret, s);
            assert(elems_of(inst(t, s)) =~= ps);
        },
        TyModel::Fn(_, a) => {
            lemma_inst_args_identity(t, a, s);
        },
        TyModel::Struct(_, a) => {
            lemma_inst_args_identity(t, a, s);
        },
        TyModel::Enum(_, a) => {
            lemma_inst_args_identity(t, a, s);
        },
        TyModel::GenericParam(i) => {
            assert(s[i as int] == ArgModel::Type(TyModel::GenericParam(i)));
        },
        _ => {},
    }
}

proof fn lemma_inst_args_identity(t: TyModel, a: Seq<ArgModel>, s: Seq<ArgModel>)
    requires
        is_identity_subst(s),
        inst_args_ok(a, s),
        args_of(t) == a,
        t is Fn || t is Struct || t is Enum,
    ensures
        inst_args(a, s) == a,
    decreases t, 0nat,
{
    assert forall|i: int| 0 <= i < a.len() implies #[trigger] inst_args(a, s)[i] == a[i] by {
        match a[i] {
            ArgModel::Type(u) => {
                assert(decreases_to!(t => a));
                assert(decreases_to!(a => a[i]));
                assert(decreases_to!(a[i] => u));
                law_instantiate_identity(u, s);
            },
            ArgModel::Const(_) => {},
        }
    }
    assert(inst_args(a, s) =~= a);
}

/// Whether no inference variable occurs in the type.
pub open spec fn ground(t: TyModel) -> bool
    decreases t,
{
    match t {
        TyModel::Infer(_) => false,
        TyModel::Array(e, _) => ground(*e),
        TyModel::Slice(e) => ground(*e),
        TyModel::Ptr(e) => ground(*e),
        TyModel::Tuple(ts) => forall|i: int| 0 <= i < ts.len() ==> ground(#[trigger] ts[i]),
        TyModel::FnPtr(ps, ret) => (forall|i: int| 0 <= i < ps.len() ==> ground(#[trigger] ps[i])) && ground(*ret),
        TyModel::Fn(_, a) => forall|i: int| 0 <= i < a.len() ==> ground_arg(#[trigger] a[i]),
        TyModel::Struct(_, a) => forall|i: int| 0 <= i < a.len() ==> ground_arg(#[trigger] a[i]),
        TyModel::Enum(_, a) => forall|i: int| 0 <= i < a.len() ==> ground_arg(#[trigger] a[i]),
        _ => true,
    }
}

pub open spec fn ground_arg(a: ArgModel) -> bool
    decreases a,
{
    match a {
        ArgModel::Type(t) => ground(t),
        ArgModel::Const(_) => true,
    }
}

/// Resolving a type in which no inference variable occurs gives it back.
pub proof fn law_deep_ground(m: Map<u32, TyModel>, t: TyModel, depth: nat)
    requires
        ground(t),
    ensures
        deep(m, t, depth) == t,
    decreases depth, t,
{
    lemma_shallow_unbound(m, t, m.len());
    if depth > 0 {
        let d = (depth - 1) as nat;
        match t {
            TyModel::Array(e, _) => {
                law_deep_ground(m, *e, d);
            },
            TyModel::Slice(e) => {
                law_deep_ground(m, *e, d);
            },
            TyModel::Ptr(e) => {
                law_deep_ground(m, *e, d);
            },
            TyModel::Tuple(ts) => {
                assert forall|i: int| 0 <= i < ts.len() implies deep(m, ts[i], d) == ts[i] by {
                    law_deep_ground(m, ts[i], d);
                }
                assert(elems_of(deep(m, t, depth)) =~= ts);
            },
            TyModel::FnPtr(ps, ret) => {
                assert forall|i: int| 0 <= i < ps.len() implies deep(m, ps[i], d) == ps[i] by {
                    law_deep_ground(m, ps[i], d);
                }
                law_deep_ground(m, *ret, d);
                assert(elems_of(deep(m, t, depth)) =~= ps);
            },
            TyModel::Fn(id, a) => {
                lemma_deep_args_ground(m, t, a, d);
                assert(resolve_top(m, t) == t);
                assert(deep(m, t, depth) is Fn);
                assert(args_of(deep(m, t, depth)).len() == a.len());
                assert forall|i: int| 0 <= i < a.len() implies args_of(deep(m, t, depth))[i] == a[i] by {
                    assert(args_of(deep(m, t, depth))[i] == deep_arg(m, a[i], d));
                }
                assert(args_of(deep(m, t, depth)) =~= a);
            },
            TyModel::Struct(id, a) => {
                lemma_deep_args_ground(m, t, a, d);
                assert(resolve_top(m, t) == t);
                assert(deep(m, t, depth) is Struct);
                assert(args_of(deep(m, t, depth)).len() == a.len());
                assert forall|i: int| 0 <= i < a.len() implies args_of(deep(m, t, depth))[i] == a[i] by {
                    assert(args_of(deep(m, t, depth))[i] == deep_arg(m, a[i], d));
                }
                assert(args_of(deep(m, t, depth)) =~= a);
            },
            TyModel::Enum(id, a) => {
                lemma_deep_args_ground(m, t, a, d);
                assert(resolve_top(m, t) == t);
                assert(deep(m, t, depth) is Enum);
                assert(args_of(deep(m, t, depth)).len() == a.len());
                assert forall|i: int| 0 <= i < a.len() implies args_of(deep(m, t, depth))[i] == a[i] by {
                    assert(args_of(deep(m, t, depth))[i] == deep_arg(m, a[i], d));
                }
                assert(args_of(deep(m, t, depth)) =~= a);
            },
            _ => {},
        }
    }
}

proof fn lemma_deep_args_ground(m: Map<u32, TyModel>, t: TyModel, a: Seq<ArgModel>, d: nat)
    requires
        ground(t),
        args_of(t) == a,
        t is Fn || t is Struct || t is Enum,
    ensures
        forall|i: int| 0 <= i < a.len() ==> #[trigger] deep_arg(m, a[i], d) == a[i],
    decreases d, t,
{
    assert forall|i: int| 0 <= i < a.len() implies #[trigger] deep_arg(m, a[i], d) == a[i] by {
        assert(ground_arg(a[i]));
        match a[i] {
            ArgModel::Type(u) => {
                assert(decreases_to!(t => a));
                assert(decreases_to!(a => a[i]));
                assert(decreases_to!(a[i] => u));
                law_deep_ground(m, u, d);
            },
            ArgModel::Const(_) => {},
        }
    }
}


/// Whether a generic parameter occurs in the type.
pub open spec fn mentions_param(t: TyModel) -> bool
    decreases t,
{
    match t {
        TyModel::Array(e, _) => mentions_param(*e),
        TyModel::Slice(e) => mentions_param(*e),
        TyModel::Ptr(e) => mentions_param(*e),
        TyModel::Tuple(ts) => exists|i: int| 0 <= i < ts.len() && mentions_param(#[trigger] ts[i]),
        TyModel::FnPtr(ps, ret) => (exists|i: int| 0 <= i < ps.len() && mentions_param(#[trigger] ps[i]))
            || mentions_param(*ret),
        TyModel::Fn(_, a) => args_mention_param(a),
        TyModel::Struct(_, a) => args_mention_param(a),
        TyModel::Enum(_, a) => args_mention_param(a),
        TyModel::GenericParam(_) => true,
        _ => false,
    }
}

/// Whether a generic parameter occurs in one of the type arguments.
pub open spec fn args_mention_param(a: Seq<ArgModel>) -> bool
    decreases a,
{
    exists|i: int|
        0 <= i < a.len() && match #[trigger] a[i] {
            ArgModel::Type(u) => mentions_param(u),
            ArgModel::Const(_) => false,
        }
}

/// Every argument of the substitution is a type in which no generic
/// parameter occurs.
pub open spec fn ground_substitution(s: Seq<ArgModel>) -> bool {
    forall|i: int| 0 <= i < s.len() ==> (#[trigger] s[i] matches ArgModel::Type(u) && !mentions_param(u))
}

/// Substituting ground types for the generic parameters of a type, each
/// parameter having its type in the substitution, leaves no generic
/// parameter anywhere in the result: under a pointer, a slice, in a tuple,
/// a function pointer or the arguments of a struct, enum or function type.
pub proof fn law_instantiate_leaves_no_parameter(t: TyModel, s: Seq<ArgModel>)
    requires
        inst_ok(t, s),
        ground_substitution(s),
    ensures
        !mentions_param(inst(t, s)),
    decreases t,
{
    match t {
        TyModel::Slice(e) => {
            law_instantiate_leaves_no_parameter(*e, s);
        },
        TyModel::Ptr(e) => {
            law_instantiate_leaves_no_parameter(*e, s);
        },
        TyModel::Tuple(ts) => {
            let r = inst(t, s);
            assert forall|i: int| 0 <= i < ts.len() implies !mentions_param(#[trigger] r->Tuple_0[i]) by {
                law_instantiate_leaves_no_parameter(ts[i], s);
            }
        },
        TyModel::FnPtr(ps, ret) => {
            let r = inst(t, s);
            assert forall|i: int| 0 <= i < ps.len() implies !mentions_param(#[trigger] r->FnPtr_0[i]) by {
                law_instantiate_leaves_no_parameter(ps[i], s);
            }
            law_instantiate_leaves_no_parameter(*ret, s);
        },
        TyModel::Fn(_, a) => {
            lemma_instantiate_args_leave_no_parameter(a, s);
        },
        TyModel::Struct(_, a) => {
            lemma_instantiate_args_leave_no_parameter(a, s);
        },
        TyModel::Enum(_, a) => {
            lemma_instantiate_args_leave_no_parameter(a, s);
        },
        TyModel::GenericParam(i) => {
            assert(s[i as int] matches ArgModel::Type(u) && !mentions_param(u));
        },
        _ => {},
    }
}

/// The type arguments after substituting ground types hold no generic
/// parameter.
pub proof fn lemma_instantiate_args_leave_no_parameter(a: Seq<ArgModel>, s: Seq<ArgModel>)
    requires
        inst_args_ok(a, s),
        ground_substitution(s),
    ensures
        !args_mention_param(inst_args(a, s)),
    decreases a,
{
    let r = inst_args(a, s);
    assert forall|i: int| 0 <= i < r.len() implies !(match #[trigger] r[i] {
        ArgModel::Type(u) => mentions_param(u),
        ArgModel::Const(_) => false,
    }) by {
        match a[i] {
            ArgModel::Type(u) => {
                law_instantiate_leaves_no_parameter(u, s);
            },
            ArgModel::Const(_) => {},
        }
    }
}

/// A type in which no generic parameter occurs is left as it is by any
/// substitution.
pub proof fn law_instantiate_keeps_ground_type(t: TyModel, s: Seq<ArgModel>)
    requires
        !mentions_param(t),
    ensures
        inst(t, s) == t,
    decreases t,
{
    match t {
        TyModel::Array(e, _) => {
            law_instantiate_keeps_ground_type(*e, s);
        },
        TyModel::Slice(e) => {
            law_instantiate_keeps_ground_type(*e, s);
        },
        TyModel::Ptr(e) => {
            law_instantiate_keeps_ground_type(*e, s);
        },
        TyModel::Tuple(ts) => {
            assert forall|i: int| 0 <= i < ts.len() implies inst(#[trigger] ts[i], s) == ts[i] by {
                law_instantiate_keeps_ground_type(ts[i], s);
            }
            assert(inst(t, s)->Tuple_0 =~= ts);
        },
        TyModel::FnPtr(ps, ret) => {
            assert forall|i: int| 0 <= i < ps.len() implies inst(#[trigger] ps[i], s) == ps[i] by {
                law_instantiate_keeps_ground_type(ps[i], s);
            }
            law_instantiate_keeps_ground_type(*ret, s);
            assert(inst(t, s)->FnPtr_0 =~= ps);
        },
        TyModel::Fn(_, a) => {
            lemma_instantiate_keeps_ground_args(a, s);
        },
        TyModel::Struct(_, a) => {
            lemma_instantiate_keeps_ground_args(a, s);
        },
        TyModel::Enum(_, a) => {
            lemma_instantiate_keeps_ground_args(a, s);
        },
        _ => {},
    }
}

/// Type arguments in which no generic parameter occurs are left as they
/// are by any substitution.
pub proof fn lemma_instantiate_keeps_ground_args(a: Seq<ArgModel>, s: Seq<ArgModel>)
    requires
        !args_mention_param(a),
    ensures
        inst_args(a, s) == a,
    decreases a,
{
    assert forall|i: int| 0 <= i < a.len() implies #[trigger] inst_args(a, s)[i] == a[i] by {
        match a[i] {
            ArgModel::Type(u) => {
                assert(!mentions_param(u));
                law_instantiate_keeps_ground_type(u, s);
            },
            ArgModel::Const(_) => {},
        }
    }
    assert(inst_args(a, s) =~= a);
}


/// A generic parameter is replaced by the type at its index in the
/// substitution, and a type built from parts is substituted part by part:
/// the pointer to a type becomes the pointer to the substituted type.
pub proof fn law_instantiate_replaces_parameters(i: usize, e: TyModel, s: Seq<ArgModel>)
    ensures
        i < s.len() && s[i as int] is Type ==> inst(TyModel::GenericParam(i), s) == s[i as int]->Type_0,
        inst(TyModel::Ptr(Box::new(e)), s) == TyModel::Ptr(Box::new(inst(e, s))),
        inst(TyModel::Slice(Box::new(e)), s) == TyModel::Slice(Box::new(inst(e, s))),
{
}

} // verus!
