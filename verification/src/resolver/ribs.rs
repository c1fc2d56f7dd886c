use crate::ast_lowerer::hir::HirId;
use crate::parser::ast::{AstId, Ident};
use crate::resolver::defs::{DefId, DefKind};
use crate::resolver::names::NameTable;
use crate::strings::{chars_eq, chars_of};
use vstd::prelude::*;

verus! {

/// The primitive types.
#[derive(Clone, Copy, Debug, PartialEq, Eq, Structural)]
pub enum PrimTy {
    I32,
    U32,
    F64,
    Bool,
    Str,
}

/// The primitive type a name stands for.
pub open spec fn spec_prim_ty_from_name(name: Seq<char>) -> Option<PrimTy> {
    if name == seq!['i', '3', '2'] {
        Some(PrimTy::I32)
    } else if name == seq!['u', '3', '2'] {
        Some(PrimTy::U32)
    } else if name == seq!['f', '6', '4'] {
        Some(PrimTy::F64)
    } else if name == seq!['b', 'o', 'o', 'l'] {
        Some(PrimTy::Bool)
    } else if name == seq!['s', 't', 'r'] {
        Some(PrimTy::Str)
    } else {
        None
    }
}

impl PrimTy {
    pub fn from_name(name: &str) -> (r: Option<PrimTy>)
        ensures
            r == spec_prim_ty_from_name(name@),
    {
        let chars = chars_of(name);
        if chars_eq(&chars, &['i', '3', '2']) {
            Some(PrimTy::I32)
        } else if chars_eq(&chars, &['u', '3', '2']) {
            Some(PrimTy::U32)
        } else if chars_eq(&chars, &['f', '6', '4']) {
            Some(PrimTy::F64)
        } else if chars_eq(&chars, &['b', 'o', 'o', 'l']) {
            Some(PrimTy::Bool)
        } else if chars_eq(&chars, &['s', 't', 'r']) {
            Some(PrimTy::Str)
        } else {
            None
        }
    }
}

/// What `Self` stands for.
#[derive(Clone, Copy, Debug, PartialEq, Eq, Structural)]
pub enum SelfTyKind {
    /// `Self` inside a struct/enum definition, where `alias_to` is the type being defined.
    AdtDef { alias_to: DefId },
    /// `Self` inside a trait definition where `trait_def` is the trait itself.
    TraitDef { trait_def: DefId },
    /// `Self` inside an impl_block, where `impl_block` is the impl/trait block itself.
    Impl { impl_block: DefId },
}

/// What a name resolves to.
#[derive(Clone, Copy, Debug, PartialEq, Eq, Structural)]
pub enum Res<Id = HirId> {
    Local(Id),
    Def(DefId, DefKind),
    PrimTy(PrimTy),
    SelfTy(SelfTyKind),
    Error,
}

/// What `Self` refers to inside an item: the type being defined or
/// implemented, the trait, and the impl or trait the item is in.
#[derive(Clone, Copy, Debug, PartialEq, Eq, Structural)]
pub struct SelfTyInfo {
    pub self_ty_def: Option<DefId>,
    pub trait_def: Option<DefId>,
    pub impl_or_trait_def: DefId,
}

#[derive(Clone, Copy, Debug, PartialEq, Eq, Structural)]
pub enum RibKind {
    Local,
    Item,
}

/// A scope of names bound to what they resolve to.
pub struct Rib {
    symbols: NameTable<Res<AstId>>,
    kind: RibKind,
}

impl Rib {
    pub closed spec fn wf(&self) -> bool {
        self.symbols.wf()
    }

    pub closed spec fn symbols(&self) -> Map<Seq<char>, Res<AstId>> {
        self.symbols@
    }

    pub closed spec fn kind(&self) -> RibKind {
        self.kind
    }

    pub fn new(kind: RibKind) -> (r: Rib)
        ensures
            r.wf(),
            r.kind() == kind,
            r.symbols() == Map::<Seq<char>, Res<AstId>>::empty(),
    {
        Rib { symbols: NameTable::new(), kind }
    }

    pub fn local() -> (r: Rib)
        ensures
            r.wf(),
            r.kind() == RibKind::Local,
            r.symbols() == Map::<Seq<char>, Res<AstId>>::empty(),
    {
        Self::new(RibKind::Local)
    }

    pub fn item() -> (r: Rib)
        ensures
            r.wf(),
            r.kind() == RibKind::Item,
            r.symbols() == Map::<Seq<char>, Res<AstId>>::empty(),
    {
        Self::new(RibKind::Item)
    }

    pub fn insert(&mut self, name: Ident, res: Res<AstId>)
        requires
            old(self).wf(),
        ensures
            final(self).wf(),
            final(self).kind() == old(self).kind(),
            final(self).symbols() == old(self).symbols().insert(name.name@, res),
    {
        self.symbols.insert(name.name, res);
    }

    pub fn get(&self, name: &Ident) -> (r: Option<Res<AstId>>)
        requires
            self.wf(),
        ensures
            r == (if self.symbols().contains_key(name.name@) {
                Some(self.symbols()[name.name@])
            } else {
                None
            }),
    {
        match self.symbols.get(&name.name) {
            Some(res) => Some(*res),
            None => None,
        }
    }
}

/// A name inserted in a rib is what `get` gives back for it.
pub proof fn law_rib_insert_then_get(before: &Rib, after: &Rib, name: Seq<char>, res: Res<AstId>)
    requires
        after.symbols() == before.symbols().insert(name, res),
    ensures
        after.symbols().contains_key(name),
        after.symbols()[name] == res,
{
}

/// Exactly the five primitive type names name a primitive type.
pub proof fn law_prim_ty_names(name: Seq<char>)
    ensures
        spec_prim_ty_from_name(name) is Some <==> (name == seq!['i', '3', '2'] || name == seq!['u', '3', '2'] || name
            == seq!['f', '6', '4'] || name == seq!['b', 'o', 'o', 'l'] || name == seq!['s', 't', 'r']),
{
}

} // verus!
