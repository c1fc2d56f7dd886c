use crate::resolver::defs::DefId;
use crate::strings::{decimal, push_decimal, push_str};
use crate::type_checker::model::{args_model, tys_model, ArgModel, TyModel};
use crate::type_checker::ty::{GenericArg, InferTy, Ty};
use vstd::prelude::*;

verus! {

broadcast use vstd::std_specs::vec::group_vec_axioms;

/// How a definition is named in a message: `DefId(3)`.
pub open spec fn def_id_text(d: DefId) -> Seq<char> {
    "DefId("@ + decimal(d.0 as nat) + ")"@
}

/// How a type is written in a message.
pub open spec fn pretty(t: TyModel) -> Seq<char>
    decreases t,
{
    match t {
        TyModel::Unit => "()"@,
        TyModel::Bool => "bool"@,
        TyModel::I32 => "i32"@,
        TyModel::U32 => "u32"@,
        TyModel::F64 => "f64"@,
        TyModel::Str => "str"@,
        TyModel::Never => "!"@,
        TyModel::Infer(InferTy::IntVar(_)) => "{integer}"@,
        TyModel::Infer(InferTy::TyVar(_)) => "{unknown}"@,
        TyModel::Array(e, _) => "["@ + pretty(*e) + "; N]"@,
        TyModel::Slice(e) => "["@ + pretty(*e) + "]"@,
        TyModel::Tuple(ts) => if ts.len() == 0 {
            "()"@
        } else {
            "("@ + pretty_list(ts) + ")"@
        },
        TyModel::Ptr(e) => "&"@ + pretty(*e),
        TyModel::FnPtr(ps, r) => "fn("@ + pretty_list(ps) + ") -> "@ + pretty(*r),
        TyModel::Fn(d, a) => "fn("@ + def_id_text(d) + ")<"@ + pretty_args(a) + ">"@,
        TyModel::Struct(d, a) => "Struct "@ + def_id_text(d) + "<"@ + pretty_args(a) + ">"@,
        TyModel::Enum(d, a) => "Enum "@ + def_id_text(d) + "<"@ + pretty_args(a) + ">"@,
        TyModel::GenericParam(i) => "T"@ + decimal(i as nat),
        TyModel::Error => "{err}"@,
        TyModel::InherentTyAlias { .. } => "{alias}"@,
    }
}

/// The types written one after the other, separated by `, `.
pub open spec fn pretty_list(ts: Seq<TyModel>) -> Seq<char>
    decreases ts,
{
    if ts.len() == 0 {
        Seq::empty()
    } else if ts.len() == 1 {
        pretty(ts[0])
    } else {
        proof {
            assert(decreases_to!(ts => ts.drop_last()));
        }
        pretty_list(ts.drop_last()) + ", "@ + pretty(ts.last())
    }
}

/// How a generic argument is written: a type as a type, a constant as `_`.
pub open spec fn pretty_arg(a: ArgModel) -> Seq<char>
    decreases a,
{
    match a {
        ArgModel::Type(t) => pretty(t),
        ArgModel::Const(_) => "_"@,
    }
}

/// The generic arguments written one after the other, separated by `, `.
pub open spec fn pretty_args(a: Seq<ArgModel>) -> Seq<char>
    decreases a,
{
    if a.len() == 0 {
        Seq::empty()
    } else if a.len() == 1 {
        pretty_arg(a[0])
    } else {
        proof {
            assert(decreases_to!(a => a.drop_last()));
        }
        pretty_args(a.drop_last()) + ", "@ + pretty_arg(a.last())
    }
}

proof fn lemma_pretty_list_step(ts: Seq<TyModel>, i: int)
    requires
        0 <= i < ts.len(),
    ensures
        pretty_list(ts.take(i + 1)) == pretty_list(ts.take(i)) + (if i == 0 {
            Seq::<char>::empty()
        } else {
            ", "@
        }) + pretty(ts[i]),
{
    assert(ts.take(i + 1).drop_last() =~= ts.take(i));
    if i == 0 {
        assert(pretty_list(ts.take(0)) == Seq::<char>::empty());
        assert(Seq::<char>::empty() + Seq::<char>::empty() + pretty(ts[0]) =~= pretty(ts[0]));
    }
}

proof fn lemma_pretty_args_step(a: Seq<ArgModel>, i: int)
    requires
        0 <= i < a.len(),
    ensures
        pretty_args(a.take(i + 1)) == pretty_args(a.take(i)) + (if i == 0 {
            Seq::<char>::empty()
        } else {
            ", "@
        }) + pretty_arg(a[i]),
{
    assert(a.take(i + 1).drop_last() =~= a.take(i));
    if i == 0 {
        assert(pretty_args(a.take(0)) == Seq::<char>::empty());
        assert(Seq::<char>::empty() + Seq::<char>::empty() + pretty_arg(a[0]) =~= pretty_arg(a[0]));
    }
}

fn push_def_id(s: &mut String, d: DefId)
    ensures
        final(s)@ == old(s)@ + def_id_text(d),
{
    push_str(s, "DefId(");
    push_decimal(s, d.0);
    push_str(s, ")");
    assert(s@ =~= old(s)@ + def_id_text(d));
}

fn push_ty_list(s: &mut String, v: &Vec<Ty>)
    ensures
        final(s)@ == old(s)@ + pretty_list(tys_model(v@)),
    decreases v@,
{
    let ghost ts = tys_model(v@);
    let mut i: usize = 0;
    while i < v.len()
        invariant
            i <= v.len(),
            ts == tys_model(v@),
            s@ == old(s)@ + pretty_list(ts.take(i as int)),
        decreases v.len() - i,
    {
        proof {
            lemma_pretty_list_step(ts, i as int);
            assert(decreases_to!(v@ => v@[i as int]));
        }
        let ghost before = s@;
        if i > 0 {
            push_str(s, ", ");
        }
        push_ty(s, &v[i]);
        proof {
            assert(ts[i as int] == v@[i as int].model());
            assert(s@ =~= old(s)@ + pretty_list(ts.take(i + 1)));
        }
        i = i + 1;
    }
    assert(ts.take(v.len() as int) =~= ts);
}

fn push_args(s: &mut String, v: &Vec<GenericArg>)
    ensures
        final(s)@ == old(s)@ + pretty_args(args_model(v@)),
    decreases v@,
{
    let ghost a = args_model(v@);
    let mut i: usize = 0;
    while i < v.len()
        invariant
            i <= v.len(),
            a == args_model(v@),
            s@ == old(s)@ + pretty_args(a.take(i as int)),
        decreases v.len() - i,
    {
        proof {
            lemma_pretty_args_step(a, i as int);
            assert(decreases_to!(v@ => v@[i as int]));
        }
        if i > 0 {
            push_str(s, ", ");
        }
        match &v[i] {
            GenericArg::Type(t) => {
                proof {
                    assert(decreases_to!(v@[i as int] => *t));
                }
                push_ty(s, t);
            },
            GenericArg::Const(_) => {
                push_str(s, "_");
            },
        }
        proof {
            assert(a[i as int] == v@[i as int].model());
            assert(s@ =~= old(s)@ + pretty_args(a.take(i + 1)));
        }
        i = i + 1;
    }
    assert(a.take(v.len() as int) =~= a);
}

/// Appends how `t` is written to `s`.
#[verifier::spinoff_prover]
#[verifier::rlimit(30)]
fn push_ty(s: &mut String, t: &Ty)
    ensures
        final(s)@ == old(s)@ + pretty(t.model()),
    decreases t,
{
    match t {
        Ty::Unit => push_str(s, "()"),
        Ty::Bool => push_str(s, "bool"),
        Ty::I32 => push_str(s, "i32"),
        Ty::U32 => push_str(s, "u32"),
        Ty::F64 => push_str(s, "f64"),
        Ty::Str => push_str(s, "str"),
        Ty::Never => push_str(s, "!"),
        Ty::Infer(InferTy::IntVar(_)) => push_str(s, "{integer}"),
        Ty::Infer(InferTy::TyVar(_)) => push_str(s, "{unknown}"),
        Ty::Array(e, _) => {
            push_str(s, "[");
            push_ty(s, e);
            push_str(s, "; N]");
            assert(s@ =~= old(s)@ + pretty(t.model()));
        },
        Ty::Slice(e) => {
            push_str(s, "[");
            push_ty(s, e);
            push_str(s, "]");
        },
        Ty::Tuple(v) => {
            if v.len() == 0 {
                push_str(s, "()");
            } else {
                proof {
                    assert(decreases_to!(*t => v@));
                }
                push_str(s, "(");
                push_ty_list(s, v);
                push_str(s, ")");
                assert(s@ =~= old(s)@ + pretty(t.model()));
            }
        },
        Ty::Ptr(e) => {
            push_str(s, "&");
            push_ty(s, e);
        },
        Ty::FnPtr(v, r) => {
            proof {
                assert(decreases_to!(*t => v@));
            }
            push_str(s, "fn(");
            push_ty_list(s, v);
            push_str(s, ") -> ");
            push_ty(s, r);
            assert(s@ =~= old(s)@ + pretty(t.model()));
        },
        Ty::Fn(d, a) => {
            proof {
                assert(decreases_to!(*t => a@));
            }
            push_str(s, "fn(");
            push_def_id(s, *d);
            push_str(s, ")<");
            push_args(s, a);
            push_str(s, ">");
        },
        Ty::Struct(d, a) => {
            proof {
                assert(decreases_to!(*t => a@));
            }
            push_str(s, "Struct ");
            push_def_id(s, *d);
            push_str(s, "<");
            push_args(s, a);
            push_str(s, ">");
        },
        Ty::Enum(d, a) => {
            proof {
                assert(decreases_to!(*t => a@));
            }
            push_str(s, "Enum ");
            push_def_id(s, *d);
            push_str(s, "<");
            push_args(s, a);
            push_str(s, ">");
        },
        Ty::GenericParam(i) => {
            push_str(s, "T");
            push_decimal(s, *i);
            assert(s@ =~= old(s)@ + pretty(t.model()));
        },
        Ty::Error => push_str(s, "{err}"),
        Ty::InherentTyAlias { .. } => push_str(s, "{alias}"),
    }
    assert(s@ =~= old(s)@ + pretty(t.model()));
}

/// How a type is written in a message.
pub fn pretty_print_ty(t: &Ty) -> (s: String)
    ensures
        s@ == pretty(t.model()),
{
    let mut s = String::new();
    push_ty(&mut s, t);
    assert(s@ =~= pretty(t.model()));
    s
}

/// How generic arguments are written in a message, separated by `, `.
pub fn pretty_print_args(args: &Vec<GenericArg>) -> (s: String)
    ensures
        s@ == pretty_args(args_model(args@)),
{
    let mut s = String::new();
    push_args(&mut s, args);
    assert(s@ =~= pretty_args(args_model(args@)));
    s
}

} // verus!
