use crate::parser::ast;
use crate::public::ast::AstId;
use crate::resolver::defs as internal_defs;
use crate::resolver::ribs as internal_ribs;
use vstd::prelude::*;

verus! {

/// Identifies a definition, as the compiler hands it out.
#[derive(Clone, Copy, Debug, PartialEq, Eq, Hash, Structural)]
pub struct DefId(pub usize);

#[derive(Clone, Copy, Debug, PartialEq, Eq, Structural)]
pub enum Res {
    Local(AstId),
    Def(DefId, DefKind),
    PrimTy(PrimTy),
    SelfTy(SelfTyInfo),
    Error,
}

#[derive(Clone, Copy, Debug, PartialEq, Eq, Structural)]
pub enum DefKind {
    Struct,
    StructField,
    Enum,
    EnumVariant,
    Trait,
    Mod,
    Impl,
    Function,
    AssocFn,
    ExternFn,
    Use,
    Const,
    TypeParam,
    TypeAlias,
    AssocTypeAlias,
}

#[derive(Clone, Copy, Debug, PartialEq, Eq, Structural)]
pub struct Definition {
    pub def_id: DefId,
    pub kind: DefKind,
}

#[derive(Clone, Copy, Debug, PartialEq, Eq, Structural)]
pub enum PrimTy {
    I32,
    U32,
    F64,
    Bool,
    Str,
}

/// What `Self` refers to.
#[derive(Clone, Copy, Debug, PartialEq, Eq, Structural)]
pub struct SelfTyInfo {
    pub self_ty_def: Option<DefId>,
    pub trait_def: Option<DefId>,
    pub impl_or_trait_def: DefId,
}

#[derive(Clone, Copy, Debug, PartialEq, Eq, Structural)]
pub struct PartialRes {
    pub base_res: Res,
    pub unresolved_segments: usize,
}

pub open spec fn spec_convert_def_kind(x: internal_defs::DefKind) -> DefKind {
    match x {
        internal_defs::DefKind::Struct => DefKind::Struct,
        internal_defs::DefKind::StructField => DefKind::StructField,
        internal_defs::DefKind::Enum => DefKind::Enum,
        internal_defs::DefKind::EnumVariant => DefKind::EnumVariant,
        internal_defs::DefKind::Trait => DefKind::Trait,
        internal_defs::DefKind::Mod => DefKind::Mod,
        internal_defs::DefKind::Impl => DefKind::Impl,
        internal_defs::DefKind::Function => DefKind::Function,
        internal_defs::DefKind::AssocFn => DefKind::AssocFn,
        internal_defs::DefKind::ExternFn => DefKind::ExternFn,
        internal_defs::DefKind::Use => DefKind::Use,
        internal_defs::DefKind::Const => DefKind::Const,
        internal_defs::DefKind::TypeParam => DefKind::TypeParam,
        internal_defs::DefKind::TypeAlias => DefKind::TypeAlias,
        internal_defs::DefKind::AssocTypeAlias => DefKind::AssocTypeAlias,
    }
}

pub fn convert_def_kind(x: &internal_defs::DefKind) -> (r: DefKind)
    ensures
        r == spec_convert_def_kind(*x),
{
    match x {
        internal_defs::DefKind::Struct => DefKind::Struct,
        internal_defs::DefKind::StructField => DefKind::StructField,
        internal_defs::DefKind::Enum => DefKind::Enum,
        internal_defs::DefKind::EnumVariant => DefKind::EnumVariant,
        internal_defs::DefKind::Trait => DefKind::Trait,
        internal_defs::DefKind::Mod => DefKind::Mod,
        internal_defs::DefKind::Impl => DefKind::Impl,
        internal_defs::DefKind::Function => DefKind::Function,
        internal_defs::DefKind::AssocFn => DefKind::AssocFn,
        internal_defs::DefKind::ExternFn => DefKind::ExternFn,
        internal_defs::DefKind::Use => DefKind::Use,
        internal_defs::DefKind::Const => DefKind::Const,
        internal_defs::DefKind::TypeParam => DefKind::TypeParam,
        internal_defs::DefKind::TypeAlias => DefKind::TypeAlias,
        internal_defs::DefKind::AssocTypeAlias => DefKind::AssocTypeAlias,
    }
}

pub open spec fn spec_convert_prim_ty(x: internal_ribs::PrimTy) -> PrimTy {
    match x {
        internal_ribs::PrimTy::I32 => PrimTy::I32,
        internal_ribs::PrimTy::U32 => PrimTy::U32,
        internal_ribs::PrimTy::F64 => PrimTy::F64,
        internal_ribs::PrimTy::Bool => PrimTy::Bool,
        internal_ribs::PrimTy::Str => PrimTy::Str,
    }
}

pub fn convert_prim_ty(x: &internal_ribs::PrimTy) -> (r: PrimTy)
    ensures
        r == spec_convert_prim_ty(*x),
{
    match x {
        internal_ribs::PrimTy::I32 => PrimTy::I32,
        internal_ribs::PrimTy::U32 => PrimTy::U32,
        internal_ribs::PrimTy::F64 => PrimTy::F64,
        internal_ribs::PrimTy::Bool => PrimTy::Bool,
        internal_ribs::PrimTy::Str => PrimTy::Str,
    }
}

/// `Self` as handed out: the type it stands for (in a type definition),
/// the trait (in a trait), and the item it stands in.
pub open spec fn spec_convert_self_ty(k: internal_ribs::SelfTyKind) -> SelfTyInfo {
    match k {
        internal_ribs::SelfTyKind::AdtDef { alias_to } => SelfTyInfo {
            self_ty_def: Some(DefId(alias_to.0)),
            trait_def: None,
            impl_or_trait_def: DefId(alias_to.0),
        },
        internal_ribs::SelfTyKind::TraitDef { trait_def } => SelfTyInfo {
            self_ty_def: None,
            trait_def: Some(DefId(trait_def.0)),
            impl_or_trait_def: DefId(trait_def.0),
        },
        internal_ribs::SelfTyKind::Impl { impl_block } => SelfTyInfo {
            self_ty_def: None,
            trait_def: None,
            impl_or_trait_def: DefId(impl_block.0),
        },
    }
}

pub open spec fn spec_convert_res(r: internal_ribs::Res<ast::AstId>) -> Res {
    match r {
        internal_ribs::Res::Local(id) => Res::Local(AstId(id.0)),
        internal_ribs::Res::Def(d, k) => Res::Def(DefId(d.0), spec_convert_def_kind(k)),
        internal_ribs::Res::PrimTy(p) => Res::PrimTy(spec_convert_prim_ty(p)),
        internal_ribs::Res::SelfTy(s) => Res::SelfTy(spec_convert_self_ty(s)),
        internal_ribs::Res::Error => Res::Error,
    }
}

pub fn convert_res(internal: &internal_ribs::Res<ast::AstId>) -> (r: Res)
    ensures
        r == spec_convert_res(*internal),
{
    match internal {
        internal_ribs::Res::Local(ast_id) => Res::Local(AstId(ast_id.0)),
        internal_ribs::Res::Def(def_id, kind) => Res::Def(DefId(def_id.0), convert_def_kind(kind)),
        internal_ribs::Res::PrimTy(p) => Res::PrimTy(convert_prim_ty(p)),
        internal_ribs::Res::SelfTy(info) => Res::SelfTy(
            match info {
                internal_ribs::SelfTyKind::AdtDef { alias_to } => SelfTyInfo {
                    self_ty_def: Some(DefId(alias_to.0)),
                    trait_def: None,
                    impl_or_trait_def: DefId(alias_to.0),
                },
                internal_ribs::SelfTyKind::TraitDef { trait_def } => SelfTyInfo {
                    self_ty_def: None,
                    trait_def: Some(DefId(trait_def.0)),
                    impl_or_trait_def: DefId(trait_def.0),
                },
                internal_ribs::SelfTyKind::Impl { impl_block } => SelfTyInfo {
                    self_ty_def: None,
                    trait_def: None,
                    impl_or_trait_def: DefId(impl_block.0),
                },
            },
        ),
        internal_ribs::Res::Error => Res::Error,
    }
}

pub fn convert_definition(d: &internal_defs::Definition) -> (r: Definition)
    ensures
        r == (Definition { def_id: DefId(d.def_id.0), kind: spec_convert_def_kind(d.kind) }),
{
    Definition { def_id: DefId(d.def_id.0), kind: convert_def_kind(&d.kind) }
}

pub fn convert_partial_res(p: &internal_defs::PartialRes) -> (r: PartialRes)
    ensures
        r == (PartialRes { base_res: spec_convert_res(p.spec_base_res()), unresolved_segments: p.spec_unresolved_segments() }),
{
    PartialRes { base_res: convert_res(&p.base_res()), unresolved_segments: p.unresolved_segments() }
}

} // verus!
