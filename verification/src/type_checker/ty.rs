use crate::ast_lowerer::hir;
use crate::ast_lowerer::hir::{HirId, HirNode};
use crate::parser::ast::Ident;
use crate::resolver::defs::DefId;
use std::collections::HashMap;
use vstd::prelude::*;

verus! {

broadcast use vstd::std_specs::hash::group_hash_axioms;

/// Identifies an inference variable.
#[derive(Clone, Copy, Debug, PartialEq, Eq, Hash, Structural)]
pub struct TyVarId(pub u32);

impl TyVarId {
    pub fn new(id: u32) -> (t: TyVarId)
        ensures
            t.0 == id,
    {
        TyVarId(id)
    }

    pub fn index(self) -> (i: u32)
        ensures
            i == self.0,
    {
        self.0
    }
}

/// A constant argument: the lowered expression it stands for, by its id.
#[derive(Clone, Copy, Debug, PartialEq, Eq, Structural)]
pub enum Const {
    Expr(HirId),
}

#[derive(Debug, PartialEq)]
pub enum GenericArg {
    Type(Ty),
    Const(Const),
}

/// A type. `GenericParam` is the index of a generic parameter; `Infer` an
/// inference variable.
#[derive(Debug, PartialEq)]
pub enum Ty {
    Unit,
    Bool,
    I32,
    U32,
    F64,
    Str,
    Never,
    Array(Box<Ty>, Const),
    Slice(Box<Ty>),
    Tuple(Vec<Ty>),
    Ptr(Box<Ty>),
    FnPtr(Vec<Ty>, Box<Ty>),
    Fn(DefId, Vec<GenericArg>),
    Struct(DefId, Vec<GenericArg>),
    Enum(DefId, Vec<GenericArg>),
    /// An associated type named on a type with more than one candidate;
    /// the generic arguments are the lowered ones, by their ids.
    InherentTyAlias {
        candidates: Vec<DefId>,
        ident: Ident,
        resolved_args: Vec<HirId>,
        unresolved_args: Vec<HirId>,
    },
    GenericParam(usize),
    Infer(InferTy),
    Error,
}

#[derive(Clone, Copy, Debug, PartialEq, Eq, Structural)]
pub enum InferTy {
    TyVar(TyVarId),
    IntVar(TyVarId),
}

#[derive(Clone, Debug, PartialEq, Eq)]
pub struct Variant {
    pub def_id: DefId,
    pub fields: Vec<DefId>,
}

#[derive(Debug)]
pub struct FnSig {
    pub params: Vec<Ty>,
    pub return_ty: Ty,
}

#[derive(Clone, Debug, PartialEq, Eq)]
pub struct StructDef {
    pub def_id: DefId,
    pub fields: Vec<DefId>,
}

#[derive(Clone, Debug, PartialEq, Eq)]
pub struct EnumDef {
    pub def_id: DefId,
    pub variants: Vec<Variant>,
}

#[derive(Clone, Copy, Debug, PartialEq, Eq, Structural)]
pub struct TraitDef {
    pub def_id: DefId,
}

#[derive(Debug)]
pub struct PredicateDef {
    pub def_id: DefId,
    pub ty: Ty,
    pub trait_bound: DefId,
}

#[derive(Clone, Debug, PartialEq)]
pub struct AssocItemDef {
    pub def_id: DefId,
    pub ident: Ident,
}

#[derive(Clone, Copy, Debug, PartialEq, Eq, Structural)]
pub enum GenericParamKind {
    Type,
    Const,
}

impl GenericParamKind {
    pub open spec fn spec_from_hir(kind: hir::GenericParamKind) -> GenericParamKind {
        match kind {
            hir::GenericParamKind::Const(_) => GenericParamKind::Const,
            hir::GenericParamKind::Type => GenericParamKind::Type,
        }
    }

    pub fn from_hir(kind: &hir::GenericParamKind) -> (k: GenericParamKind)
        ensures
            k == Self::spec_from_hir(*kind),
    {
        match kind {
            hir::GenericParamKind::Const(_) => GenericParamKind::Const,
            hir::GenericParamKind::Type => GenericParamKind::Type,
        }
    }
}

#[derive(Clone, Copy, Debug, PartialEq, Eq, Structural)]
pub struct GenericParamDef {
    pub def_id: DefId,
    pub index: usize,
    pub kind: GenericParamKind,
}

/// The generic parameters of a definition, numbered after those of its parent.
#[derive(Clone, Debug)]
pub struct Generics {
    pub parent: Option<DefId>,
    pub params: Vec<GenericParamDef>,
}

impl Generics {
    /// Numbers the parameters from `index_start` on, in their order.
    pub fn new(parent: Option<DefId>, params: &[HirNode<hir::GenericParam>], index_start: usize) -> (g: Generics)
        requires
            index_start + params@.len() <= usize::MAX,
        ensures
            g.parent == parent,
            g.params.len() == params@.len(),
            forall|i: int|
                0 <= i < params@.len() ==> (#[trigger] g.params@[i]) == (GenericParamDef {
                    def_id: params@[i].node.def_id,
                    index: (index_start + i) as usize,
                    kind: GenericParamKind::spec_from_hir(params@[i].node.kind),
                }),
    {
        let mut defs: Vec<GenericParamDef> = Vec::new();
        let mut i: usize = 0;
        while i < params.len()
            invariant
                i <= params@.len(),
                index_start + params@.len() <= usize::MAX,
                defs.len() == i,
                forall|j: int|
                    0 <= j < i ==> (#[trigger] defs@[j]) == (GenericParamDef {
                        def_id: params@[j].node.def_id,
                        index: (index_start + j) as usize,
                        kind: GenericParamKind::spec_from_hir(params@[j].node.kind),
                    }),
            decreases params@.len() - i,
        {
            let param = &params[i];
            defs.push(
                GenericParamDef {
                    def_id: param.node.def_id,
                    index: index_start + i,
                    kind: GenericParamKind::from_hir(&param.node.kind),
                },
            );
            i = i + 1;
        }
        Generics { parent, params: defs }
    }

    pub fn with_parent(parent: DefId, params: &[HirNode<hir::GenericParam>], index_start: usize) -> (g: Generics)
        requires
            index_start + params@.len() <= usize::MAX,
        ensures
            g.parent == Some(parent),
            g.params.len() == params@.len(),
            forall|i: int|
                0 <= i < params@.len() ==> (#[trigger] g.params@[i]).index == index_start + i
                    && g.params@[i].def_id == params@[i].node.def_id,
    {
        Self::new(Some(parent), params, index_start)
    }

    pub fn without_parent(params: &[HirNode<hir::GenericParam>]) -> (g: Generics)
        ensures
            g.parent is None,
            g.params.len() == params@.len(),
            forall|i: int|
                0 <= i < params@.len() ==> (#[trigger] g.params@[i]).index == i
                    && g.params@[i].def_id == params@[i].node.def_id,
    {
        let n = params.len();
        assert(n == params@.len());
        Self::new(None, params, 0)
    }

    /// The generics of a trait: its `Self` (the trait itself) comes first,
    /// as parameter 0, then the trait's own parameters from 1 on.
    pub fn for_trait(trait_def_id: DefId, params: &[HirNode<hir::GenericParam>]) -> (g: Generics)
        requires
            params@.len() < usize::MAX,
        ensures
            g.parent is None,
            g.params.len() == params@.len() + 1,
            g.params@[0] == (GenericParamDef { def_id: trait_def_id, index: 0, kind: GenericParamKind::Type }),
            forall|i: int|
                0 <= i < params@.len() ==> (#[trigger] g.params@[i + 1]).index == i + 1
                    && g.params@[i + 1].def_id == params@[i].node.def_id,
    {
        let mut generics = Self::new(None, params, 1);
        let ghost before = generics.params@;
        generics.params.insert(0, GenericParamDef { def_id: trait_def_id, index: 0, kind: GenericParamKind::Type });
        proof {
            assert forall|i: int| 0 <= i < params@.len() implies (#[trigger] generics.params@[i + 1]).index == i + 1
                && generics.params@[i + 1].def_id == params@[i].node.def_id by {
                assert(generics.params@[i + 1] == before[i]);
            }
        }
        generics
    }
}

/// The index of the parameter `def_id` in the generics `g` or, failing
/// that, in those of its parents (looked up in `generics_of`, keyed by the
/// number inside a definition's id), at most `fuel` parents up.
pub open spec fn spec_param_index(g: Generics, def_id: DefId, generics_of: Map<usize, Generics>, fuel: nat) -> Option<usize>
    decreases fuel,
{
    if exists|i: int| 0 <= i < g.params.len() && g.params@[i].def_id == def_id {
        let i = choose|i: int| 0 <= i < g.params.len() && g.params@[i].def_id == def_id && forall|j: int|
            0 <= j < i ==> g.params@[j].def_id != def_id;
        Some(g.params@[i].index)
    } else if fuel > 0 {
        match g.parent {
            Some(p) => if generics_of.contains_key(p.0) {
                spec_param_index(generics_of[p.0], def_id, generics_of, (fuel - 1) as nat)
            } else {
                None
            },
            None => None,
        }
    } else {
        None
    }
}

/// Once the index is found with some fuel, more fuel finds the same.
pub proof fn lemma_param_index_fuel(g: Generics, def_id: DefId, generics_of: Map<usize, Generics>, f: nat, f2: nat)
    requires
        spec_param_index(g, def_id, generics_of, f) is Some,
        f <= f2,
    ensures
        spec_param_index(g, def_id, generics_of, f2) == spec_param_index(g, def_id, generics_of, f),
    decreases f,
{
    if exists|i: int| 0 <= i < g.params.len() && g.params@[i].def_id == def_id {
    } else if f > 0 {
        match g.parent {
            Some(p) => {
                if generics_of.contains_key(p.0) {
                    lemma_param_index_fuel(generics_of[p.0], def_id, generics_of, (f - 1) as nat, (f2 - 1) as nat);
                }
            },
            None => {},
        }
    }
}

/// The first parameter with the given definition.
fn find_param(params: &Vec<GenericParamDef>, def_id: DefId) -> (r: Option<usize>)
    ensures
        match r {
            Some(i) => i < params.len() && params@[i as int].def_id == def_id && forall|j: int|
                0 <= j < i ==> params@[j].def_id != def_id,
            None => forall|j: int| 0 <= j < params.len() ==> params@[j].def_id != def_id,
        },
{
    let mut i: usize = 0;
    while i < params.len()
        invariant
            i <= params.len(),
            forall|j: int| 0 <= j < i ==> params@[j].def_id != def_id,
        decreases params.len() - i,
    {
        if params[i].def_id == def_id {
            return Some(i);
        }
        i = i + 1;
    }
    None
}

impl Generics {
    fn get_index_fuel(&self, def_id: DefId, generics_of: &HashMap<usize, Generics>, Ghost(fuel): Ghost<nat>) -> (r: usize)
        requires
            spec_param_index(*self, def_id, generics_of@, fuel) is Some,
        ensures
            spec_param_index(*self, def_id, generics_of@, fuel) == Some(r),
        decreases fuel,
    {
        match find_param(&self.params, def_id) {
            Some(i) => {
                proof {
                    let c = choose|k: int| 0 <= k < self.params.len() && self.params@[k].def_id == def_id && forall|j: int|
                        0 <= j < k ==> self.params@[j].def_id != def_id;
                    assert(self.params@[i as int].def_id == def_id);
                    if c < i {
                    } else if c > i {
                        assert(self.params@[i as int].def_id != def_id);
                    }
                }
                self.params[i].index
            },
            None => {
                let parent = match self.parent {
                    Some(p) => p,
                    None => {
                        proof {
                            assert(false);
                        }
                        DefId(0)
                    },
                };
                match generics_of.get(&parent.0) {
                    Some(g) => g.get_index_fuel(def_id, generics_of, Ghost((fuel - 1) as nat)),
                    None => {
                        proof {
                            assert(false);
                        }
                        0
                    },
                }
            },
        }
    }

    /// The index of the parameter `def_id`, among these generics or those
    /// of their parents (looked up in `generics_of`, keyed by the number
    /// inside a definition's id).
    pub fn get_index(&self, def_id: DefId, generics_of: &HashMap<usize, Generics>) -> (r: usize)
        requires
            exists|fuel: nat| spec_param_index(*self, def_id, generics_of@, fuel) is Some,
        ensures
            forall|fuel: nat| #[trigger] spec_param_index(*self, def_id, generics_of@, fuel) is Some ==> spec_param_index(
                *self,
                def_id,
                generics_of@,
                fuel,
            ) == Some(r),
    {
        let ghost fuel = choose|fuel: nat| spec_param_index(*self, def_id, generics_of@, fuel) is Some;
        let r = self.get_index_fuel(def_id, generics_of, Ghost(fuel));
        proof {
            assert forall|f: nat| #[trigger] spec_param_index(*self, def_id, generics_of@, f) is Some implies spec_param_index(
                *self,
                def_id,
                generics_of@,
                f,
            ) == Some(r) by {
                if f <= fuel {
                    lemma_param_index_fuel(*self, def_id, generics_of@, f, fuel);
                } else {
                    lemma_param_index_fuel(*self, def_id, generics_of@, fuel, f);
                }
            }
        }
        r
    }
}

/// What type collection finds, each map keyed by the number inside a
/// definition's id: the type of each definition, the signature of each
/// function, the fields of each struct and the variants of each enum, the
/// traits, the bounds of each generic parameter, the impls of each type,
/// the associated items of each impl or trait, and the generics of each
/// definition.
pub struct CollectedTypes {
    pub type_of: HashMap<usize, Ty>,
    pub fn_sig: HashMap<usize, FnSig>,
    pub structs: HashMap<usize, StructDef>,
    pub enums: HashMap<usize, EnumDef>,
    pub traits: HashMap<usize, TraitDef>,
    pub predicates_of: HashMap<usize, PredicateDef>,
    pub impls_of: HashMap<usize, Vec<DefId>>,
    pub assoc_items: HashMap<usize, Vec<AssocItemDef>>,
    pub generics_of: HashMap<usize, Generics>,
}

impl CollectedTypes {
    pub fn new() -> (c: CollectedTypes)
        ensures
            c.type_of@ == Map::<usize, Ty>::empty(),
            c.fn_sig@ == Map::<usize, FnSig>::empty(),
            c.structs@ == Map::<usize, StructDef>::empty(),
            c.enums@ == Map::<usize, EnumDef>::empty(),
            c.traits@ == Map::<usize, TraitDef>::empty(),
            c.predicates_of@ == Map::<usize, PredicateDef>::empty(),
            c.impls_of@ == Map::<usize, Vec<DefId>>::empty(),
            c.assoc_items@ == Map::<usize, Vec<AssocItemDef>>::empty(),
            c.generics_of@ == Map::<usize, Generics>::empty(),
    {
        CollectedTypes {
            type_of: HashMap::new(),
            fn_sig: HashMap::new(),
            structs: HashMap::new(),
            enums: HashMap::new(),
            traits: HashMap::new(),
            predicates_of: HashMap::new(),
            impls_of: HashMap::new(),
            assoc_items: HashMap::new(),
            generics_of: HashMap::new(),
        }
    }
}

} // verus!
