use crate::parser::ast::{AstId, Ident};
use crate::resolver::defs::DefId;
use crate::resolver::ribs::Res;
use crate::span::Span;
use vstd::prelude::*;

verus! {

/// Identifies a node of the lowered tree.
#[derive(Clone, Copy, Debug, PartialEq, Eq, Hash, Structural)]
pub struct HirId(pub usize);

#[derive(Debug)]
pub struct HirNode<T> {
    pub node: T,
    pub span: Span,
    pub hir_id: HirId,
}

impl<T> HirNode<T> {
    pub fn with_id(node: T, span: Span, hir_id: HirId) -> (n: HirNode<T>)
        ensures
            n.node == node,
            n.span == span,
            n.hir_id == hir_id,
    {
        HirNode { node, span, hir_id }
    }
}

#[derive(Debug)]
pub struct Crate {
    pub items: Vec<HirNode<Item>>,
    pub span: Span,
}

/// A path and what it resolves to (a local binding is named by the node of
/// its binding pattern); an unresolved path keeps the segments that name
/// associated items apart.
#[derive(Debug)]
pub enum Path {
    Resolved { res: Res<AstId>, segments: Vec<HirNode<PathSegment>> },
    Unresolved {
        res: Res<AstId>,
        resolved_segments: Vec<HirNode<PathSegment>>,
        unresolved_segments: Vec<HirNode<PathSegment>>,
    },
}

#[derive(Debug)]
pub struct PathSegment {
    pub ident: HirNode<Ident>,
    pub args: Vec<HirNode<GenericArg>>,
}

#[derive(Debug)]
pub enum GenericArg {
    /// `Bar` in `Foo<Bar>`
    Type(HirNode<Ty>),
    /// `1` in `Foo<const 1>`
    Const(Box<HirNode<Expr>>),
}

#[derive(Debug)]
pub enum Ty {
    Path(HirNode<Path>),
    Array(Box<HirNode<Ty>>, Box<HirNode<Expr>>),
    Ptr(Box<HirNode<Ty>>),
    Fn(Vec<HirNode<Ty>>, Option<Box<HirNode<Ty>>>),
    Tuple(Vec<HirNode<Ty>>),
}

#[derive(Debug)]
pub enum Pattern {
    Wildcard,
    Or(Vec<HirNode<Pattern>>),
    Path(HirNode<Path>),
    Struct(HirNode<Path>, Vec<HirNode<PatternStructField>>),
    TupleStruct(HirNode<Path>, Vec<HirNode<Pattern>>),
    Tuple(Vec<HirNode<Pattern>>),
    Expr(Box<HirNode<Expr>>),
}

#[derive(Debug)]
pub struct PatternStructField {
    pub ident: HirNode<Ident>,
    pub pattern: HirNode<Pattern>,
}

#[derive(Debug)]
pub enum AssociatedItem {
    Fn(HirNode<FnSig>, Option<HirNode<BlockExpr>>),
    Type(HirNode<TyAlias>),
}

#[derive(Debug)]
pub enum Item {
    Fn(FnDecl),
    Struct(StructDecl),
    Enum(EnumDecl),
    Trait(TraitDecl),
    Mod(ModDecl),
    Impl(ImplDecl),
    ExternFn(ExternFnDecl),
    Const(ConstDecl),
    TyAlias(TyAlias),
}

#[derive(Debug)]
pub struct FnDecl {
    pub def_id: DefId,
    pub sig: HirNode<FnSig>,
    pub body: HirNode<BlockExpr>,
}

#[derive(Debug)]
pub struct FnSig {
    pub ident: HirNode<Ident>,
    pub generics: Vec<HirNode<GenericParam>>,
    pub params: Vec<HirNode<Param>>,
    pub return_ty: Option<HirNode<Ty>>,
}

#[derive(Debug)]
pub struct Param {
    pub pattern: HirNode<Pattern>,
    pub type_annotation: HirNode<Ty>,
}

#[derive(Debug)]
pub struct GenericParam {
    pub def_id: DefId,
    pub ident: HirNode<Ident>,
    pub bounds: Vec<HirNode<Path>>,
    pub kind: GenericParamKind,
}

#[derive(Debug)]
pub enum GenericParamKind {
    Const(HirNode<Ty>),
    Type,
}

#[derive(Debug)]
pub struct ExternFnDecl {
    pub def_id: DefId,
    pub sig: HirNode<FnSig>,
}

#[derive(Debug)]
pub struct ConstDecl {
    pub def_id: DefId,
    pub ident: HirNode<Ident>,
    pub generics: Vec<HirNode<GenericParam>>,
    pub ty: Option<HirNode<Ty>>,
    pub expr: HirNode<Expr>,
}

#[derive(Debug)]
pub struct StructDecl {
    pub def_id: DefId,
    pub ident: HirNode<Ident>,
    pub generics: Vec<HirNode<GenericParam>>,
    pub data: HirNode<VariantData>,
}

#[derive(Debug)]
pub struct EnumDecl {
    pub def_id: DefId,
    pub ident: HirNode<Ident>,
    pub generics: Vec<HirNode<GenericParam>>,
    pub variants: Vec<HirNode<EnumVariant>>,
}

#[derive(Debug)]
pub struct EnumVariant {
    pub def_id: DefId,
    pub ident: HirNode<Ident>,
    pub data: HirNode<VariantData>,
}

#[derive(Debug)]
pub enum VariantData {
    Unit,
    Struct { fields: Vec<HirNode<StructField>> },
    Tuple { types: Vec<HirNode<Ty>> },
}

#[derive(Debug)]
pub struct StructField {
    pub def_id: DefId,
    pub ident: HirNode<Ident>,
    pub ty: HirNode<Ty>,
}

#[derive(Debug)]
pub struct TraitDecl {
    pub def_id: DefId,
    pub ident: HirNode<Ident>,
    pub generics: Vec<HirNode<GenericParam>>,
    pub items: Vec<HirNode<AssociatedItem>>,
}

#[derive(Debug)]
pub struct ModDecl {
    pub def_id: DefId,
    pub ident: HirNode<Ident>,
    pub items: Vec<HirNode<Item>>,
}

#[derive(Debug)]
pub struct ImplDecl {
    pub def_id: DefId,
    pub generics: Vec<HirNode<GenericParam>>,
    pub self_ty: HirNode<Ty>,
    pub of_trait: Option<HirNode<Path>>,
    pub items: Vec<HirNode<AssociatedItem>>,
}

#[derive(Debug)]
pub struct TyAlias {
    pub def_id: DefId,
    pub ident: HirNode<Ident>,
    pub generics: Vec<HirNode<GenericParam>>,
    pub ty: Option<HirNode<Ty>>,
}

#[derive(Debug)]
pub enum Stmt {
    Let(LetStmt),
    Expr(HirNode<Expr>),
    Semi(HirNode<Expr>),
    Item(HirNode<Item>),
}

#[derive(Debug)]
pub struct LetStmt {
    pub pattern: HirNode<Pattern>,
    pub ty: Option<HirNode<Ty>>,
    pub expr: Option<Box<HirNode<Expr>>>,
}

#[derive(Debug)]
pub enum Expr {
    Array(Vec<HirNode<Expr>>),
    Struct(StructExpr),
    Call(CallExpr),
    MethodCall(MethodCallExpr),
    Tuple(Vec<HirNode<Expr>>),
    Cast(CastExpr),
    Return(Option<Box<HirNode<Expr>>>),
    Loop(LoopExpr),
    Assign(AssignExpr),
    Field(FieldExpr),
    Index(IndexExpr),
    Path(HirNode<Path>),
    AddrOf(Box<HirNode<Expr>>),
    Break(Option<Box<HirNode<Expr>>>),
    Continue,
    Literal(Literal),
    Binary(BinaryExpr),
    Unary(UnaryExpr),
    If(IfExpr),
    Block(HirNode<BlockExpr>),
    Match(MatchExpr),
    Let(LetExpr),
    Error,
}

#[derive(Debug)]
pub struct StructExpr {
    pub path: HirNode<Path>,
    pub fields: Vec<HirNode<StructExprField>>,
}

#[derive(Debug)]
pub struct StructExprField {
    pub ident: HirNode<Ident>,
    pub expr: Box<HirNode<Expr>>,
}

#[derive(Debug)]
pub struct CallExpr {
    pub callee: Box<HirNode<Expr>>,
    pub args: Vec<HirNode<Expr>>,
}

#[derive(Debug)]
pub struct MethodCallExpr {
    pub receiver: Box<HirNode<Expr>>,
    pub method: HirNode<PathSegment>,
    pub args: Vec<HirNode<Expr>>,
}

#[derive(Debug)]
pub struct CastExpr {
    pub expr: Box<HirNode<Expr>>,
    pub ty: HirNode<Ty>,
}

#[derive(Debug)]
pub struct LoopExpr {
    pub body: HirNode<BlockExpr>,
}

#[derive(Debug)]
pub struct AssignExpr {
    pub lhs: Box<HirNode<Expr>>,
    pub rhs: Box<HirNode<Expr>>,
}

#[derive(Debug)]
pub struct FieldExpr {
    pub base: Box<HirNode<Expr>>,
    pub field: HirNode<Ident>,
}

#[derive(Debug)]
pub struct IndexExpr {
    pub base: Box<HirNode<Expr>>,
    pub index: Box<HirNode<Expr>>,
}

#[derive(Debug, PartialEq)]
pub enum Literal {
    Bool(bool),
    I32(i32),
    U32(u32),
    /// The digits of a floating-point literal, as written.
    Float(String),
    Str(String),
    Unit,
}

#[derive(Debug)]
pub struct BinaryExpr {
    pub lhs: Box<HirNode<Expr>>,
    pub op: BinOp,
    pub rhs: Box<HirNode<Expr>>,
}

#[derive(Clone, Copy, Debug, PartialEq, Eq, Structural)]
pub enum BinOp {
    Add,
    Sub,
    Mul,
    Div,
    Rem,
    And,
    Or,
    Eq,
    Ne,
    Lt,
    Le,
    Gt,
    Ge,
}

#[derive(Debug)]
pub struct UnaryExpr {
    pub op: UnOp,
    pub operand: Box<HirNode<Expr>>,
}

#[derive(Clone, Copy, Debug, PartialEq, Eq, Structural)]
pub enum UnOp {
    Deref,
    Not,
    Neg,
}

#[derive(Debug)]
pub struct IfExpr {
    pub condition: Box<HirNode<Expr>>,
    pub then_branch: HirNode<BlockExpr>,
    pub else_branch: Option<HirNode<BlockExpr>>,
}

#[derive(Debug)]
pub struct BlockExpr {
    pub stmts: Vec<HirNode<Stmt>>,
}

#[derive(Debug)]
pub struct MatchExpr {
    pub scrutinee: Box<HirNode<Expr>>,
    pub arms: Vec<HirNode<MatchArm>>,
}

#[derive(Debug)]
pub struct MatchArm {
    pub pattern: HirNode<Pattern>,
    pub body: Box<HirNode<Expr>>,
}

#[derive(Debug)]
pub struct LetExpr {
    pub pattern: HirNode<Pattern>,
    pub init: Box<HirNode<Expr>>,
}

} // verus!
