use crate::span::Span;
use vstd::prelude::*;

verus! {

/// Identifies a node of the syntax tree.
#[derive(Clone, Copy, Debug, PartialEq, Eq, Hash, Structural)]
pub struct AstId(pub usize);

#[derive(Debug)]
pub struct AstNode<T> {
    pub node: T,
    pub span: Span,
    pub ast_id: AstId,
}

impl<T> AstNode<T> {
    pub fn with_id(node: T, span: Span, ast_id: AstId) -> (n: AstNode<T>)
        ensures
            n.node == node,
            n.span == span,
            n.ast_id == ast_id,
    {
        AstNode { node, span, ast_id }
    }
}

#[derive(Clone, Debug, PartialEq)]
pub struct Ident {
    pub name: String,
}

impl Ident {
    pub fn new(name: String) -> (i: Ident)
        ensures
            i.name == name,
    {
        Ident { name }
    }

    /// The identifier that stands in for one that is missing.
    pub fn err() -> (i: Ident)
        ensures
            i.name@ == Seq::<char>::empty(),
    {
        Ident { name: String::new() }
    }
}

/// e.g. std::cmp::PartialEq
#[derive(Debug)]
pub struct Path {
    pub segments: Vec<AstNode<PathSegment>>,
}

/// e.g. std, String, Box<T>
#[derive(Debug)]
pub struct PathSegment {
    pub ident: AstNode<Ident>,
    pub args: Vec<AstNode<GenericArg>>,
}

#[derive(Debug)]
pub enum GenericArg {
    Type(AstNode<Ty>),
    Const(Box<AstNode<Expr>>),
}

#[derive(Debug)]
pub enum Ty {
    Path(AstNode<Path>),
    Array(Box<AstNode<Ty>>, Box<AstNode<Expr>>),
    Ptr(Box<AstNode<Ty>>),
    Fn(Vec<AstNode<Ty>>, Box<Option<AstNode<Ty>>>),
    Tuple(Vec<AstNode<Ty>>),
}

#[derive(Debug)]
pub enum Pattern {
    Wildcard,
    Or(Vec<AstNode<Pattern>>),
    Path(AstNode<Path>),
    Struct(AstNode<Path>, Vec<AstNode<PatternStructField>>),
    TupleStruct(AstNode<Path>, Vec<AstNode<Pattern>>),
    Tuple(Vec<AstNode<Pattern>>),
    Expr(Box<AstNode<Expr>>),
    Paren(Box<AstNode<Pattern>>),
}

#[derive(Debug)]
pub struct PatternStructField {
    pub ident: AstNode<Ident>,
    pub pattern: AstNode<Pattern>,
}

#[derive(Debug)]
pub enum AssociatedItem {
    Fn(AstNode<FnSig>, Option<AstNode<BlockExpr>>),
    Type(AstNode<TyAliasDecl>),
}

#[derive(Debug)]
pub struct Crate {
    pub items: Vec<AstNode<Item>>,
    pub span: Span,
}

#[derive(Debug)]
pub enum Item {
    Fn(FnDecl),
    Struct(StructDecl),
    Enum(EnumDecl),
    Trait(TraitDecl),
    Mod(ModDecl),
    Impl(ImplDecl),
    ExternFn(ExternFnDecl),
    Const(ConstDecl),
    Use(UseItem),
    TyAlias(TyAliasDecl),
    Error,
}

#[derive(Debug)]
pub enum Stmt {
    Let(LetStmt),
    Item(AstNode<Item>),
    Expr(AstNode<Expr>),
    Semi(AstNode<Expr>),
    Error,
}

#[derive(Debug)]
pub struct UseItem {
    pub path: AstNode<Path>,
}

#[derive(Debug)]
pub struct FnDecl {
    pub sig: AstNode<FnSig>,
    pub body: AstNode<BlockExpr>,
}

#[derive(Debug)]
pub struct ExternFnDecl {
    pub sig: AstNode<FnSig>,
}

#[derive(Debug)]
pub struct ModDecl {
    pub ident: AstNode<Ident>,
    pub items: Vec<AstNode<Item>>,
}

#[derive(Debug)]
pub struct FnSig {
    pub ident: AstNode<Ident>,
    pub generics: Vec<AstNode<GenericParam>>,
    pub params: Vec<AstNode<Param>>,
    pub return_ty: Option<AstNode<Ty>>,
}

#[derive(Debug)]
pub struct Param {
    pub pattern: AstNode<Pattern>,
    pub type_annotation: AstNode<Ty>,
}

#[derive(Debug)]
pub struct ConstDecl {
    pub ident: AstNode<Ident>,
    pub generics: Vec<AstNode<GenericParam>>,
    pub type_annotation: Option<AstNode<Ty>>,
    pub expr: AstNode<Expr>,
}

#[derive(Debug)]
pub struct GenericParam {
    pub ident: AstNode<Ident>,
    pub bounds: Vec<AstNode<Path>>,
    pub kind: GenericParamKind,
}

#[derive(Debug)]
pub enum GenericParamKind {
    Const(AstNode<Ty>),
    Type,
}

#[derive(Debug)]
pub struct EnumDecl {
    pub ident: AstNode<Ident>,
    pub generics: Vec<AstNode<GenericParam>>,
    pub variants: Vec<AstNode<EnumVariant>>,
}

#[derive(Debug)]
pub struct EnumVariant {
    pub ident: AstNode<Ident>,
    pub data: AstNode<VariantData>,
}

#[derive(Debug)]
pub enum VariantData {
    Unit,
    Struct { fields: Vec<AstNode<StructFieldDef>> },
    Tuple { types: Vec<AstNode<Ty>> },
}

#[derive(Debug)]
pub struct StructFieldDef {
    pub ident: AstNode<Ident>,
    pub type_annotation: AstNode<Ty>,
}

#[derive(Debug)]
pub struct StructDecl {
    pub ident: AstNode<Ident>,
    pub generics: Vec<AstNode<GenericParam>>,
    pub data: AstNode<VariantData>,
}

#[derive(Debug)]
pub struct TraitDecl {
    pub ident: AstNode<Ident>,
    pub generics: Vec<AstNode<GenericParam>>,
    pub items: Vec<AstNode<AssociatedItem>>,
}

#[derive(Debug)]
pub struct ImplDecl {
    pub generics: Vec<AstNode<GenericParam>>,
    pub self_ty: AstNode<Ty>,
    pub for_trait: Option<AstNode<Path>>,
    pub items: Vec<AstNode<AssociatedItem>>,
}

#[derive(Debug)]
pub struct TyAliasDecl {
    pub ident: AstNode<Ident>,
    pub generics: Vec<AstNode<GenericParam>>,
    pub ty: Option<AstNode<Ty>>,
}

#[derive(Debug)]
pub struct LetStmt {
    pub pat: AstNode<Pattern>,
    pub type_annotation: Option<AstNode<Ty>>,
    pub expr: Option<Box<AstNode<Expr>>>,
}

#[derive(Debug)]
pub enum Expr {
    Array(ArrayExpr),
    Struct(StructExpr),
    Call(CallExpr),
    MethodCall(MethodCallExpr),
    Tuple(TupleExpr),
    Cast(CastExpr),
    Return(ReturnExpr),
    While(WhileExpr),
    Loop(LoopExpr),
    For(ForExpr),
    Assign(AssignExpr),
    AssignOp(AssignOpExpr),
    FieldAccess(FieldAccessExpr),
    Index(IndexExpr),
    Path(PathExpr),
    AddrOf(AddrOfExpr),
    Break(BreakExpr),
    Continue,
    Literal(LiteralExpr),
    Binary(BinaryExpr),
    Unary(UnaryExpr),
    If(IfExpr),
    Block(BlockExpr),
    Match(MatchExpr),
    Let(LetExpr),
    Paren(Box<AstNode<Expr>>),
    Error,
}

#[derive(Debug)]
pub struct ArrayExpr {
    pub expressions: Vec<AstNode<Expr>>,
}

#[derive(Debug)]
pub struct StructExpr {
    pub name: AstNode<Path>,
    pub fields: Vec<AstNode<StructExprField>>,
}

#[derive(Debug)]
pub struct StructExprField {
    pub ident: AstNode<Ident>,
    pub expr: Box<AstNode<Expr>>,
}

#[derive(Debug)]
pub struct CallExpr {
    pub callee: Box<AstNode<Expr>>,
    pub arguments: Vec<AstNode<Expr>>,
}

#[derive(Debug)]
pub struct MethodCallExpr {
    pub name: AstNode<PathSegment>,
    pub receiver: Box<AstNode<Expr>>,
    pub arguments: Vec<AstNode<Expr>>,
}

#[derive(Debug)]
pub struct TupleExpr {
    pub expressions: Vec<AstNode<Expr>>,
}

#[derive(Debug)]
pub struct CastExpr {
    pub expr: Box<AstNode<Expr>>,
    pub ty: AstNode<Ty>,
}

#[derive(Debug)]
pub struct ReturnExpr {
    pub value: Option<Box<AstNode<Expr>>>,
}

#[derive(Debug)]
pub struct WhileExpr {
    pub condition: Box<AstNode<Expr>>,
    pub body: Box<AstNode<BlockExpr>>,
}

#[derive(Debug)]
pub struct LoopExpr {
    pub body: Box<AstNode<BlockExpr>>,
}

#[derive(Debug)]
pub struct ForExpr {
    pub pattern: AstNode<Pattern>,
    pub iterator: Box<AstNode<Expr>>,
    pub body: Box<AstNode<BlockExpr>>,
}

#[derive(Debug)]
pub struct AssignExpr {
    pub target: Box<AstNode<Expr>>,
    pub value: Box<AstNode<Expr>>,
}

#[derive(Debug)]
pub struct AssignOpExpr {
    pub op: AstNode<AssignOp>,
    pub target: Box<AstNode<Expr>>,
    pub value: Box<AstNode<Expr>>,
}

#[derive(Debug)]
pub struct FieldAccessExpr {
    pub target: Box<AstNode<Expr>>,
    pub field: AstNode<Ident>,
}

#[derive(Debug)]
pub struct IndexExpr {
    pub target: Box<AstNode<Expr>>,
    pub index: Box<AstNode<Expr>>,
}

#[derive(Debug)]
pub struct PathExpr {
    pub path: AstNode<Path>,
}

#[derive(Debug)]
pub struct AddrOfExpr {
    pub expr: Box<AstNode<Expr>>,
}

#[derive(Debug)]
pub struct BreakExpr {
    pub expr: Option<Box<AstNode<Expr>>>,
}

#[derive(Debug)]
pub struct BlockExpr {
    pub stmts: Vec<AstNode<Stmt>>,
}

#[derive(Debug)]
pub enum LiteralExpr {
    Bool(bool),
    I32(i32),
    U32(u32),
    /// The digits of a floating-point literal, as written.
    Float(String),
    Str(String),
    Unit,
}

#[derive(Debug)]
pub struct BinaryExpr {
    pub left: Box<AstNode<Expr>>,
    pub operator: AstNode<BinOp>,
    pub right: Box<AstNode<Expr>>,
}

#[derive(Debug)]
pub struct UnaryExpr {
    pub operator: AstNode<UnOp>,
    pub operand: Box<AstNode<Expr>>,
}

#[derive(Debug)]
pub struct IfExpr {
    pub condition: Box<AstNode<Expr>>,
    pub then_branch: Box<AstNode<BlockExpr>>,
    pub else_branch: Option<Box<AstNode<BlockExpr>>>,
}

#[derive(Debug)]
pub struct MatchExpr {
    pub value: Box<AstNode<Expr>>,
    pub arms: Vec<AstNode<MatchArm>>,
}

#[derive(Debug)]
pub struct MatchArm {
    pub pattern: AstNode<Pattern>,
    pub body: Box<AstNode<Expr>>,
}

/// only semantically valid in the if / while condition
#[derive(Debug)]
pub struct LetExpr {
    pub pattern: AstNode<Pattern>,
    pub value: Box<AstNode<Expr>>,
}

#[derive(Clone, Copy, Debug, PartialEq, Eq, Structural)]
pub enum BinOp {
    Add,
    Sub,
    Mul,
    Div,
    Rem,
    And,
    Or,
    EqEq,
    Less,
    LessEq,
    Greater,
    GreaterEq,
    NotEq,
}

#[derive(Clone, Copy, Debug, PartialEq, Eq, Structural)]
pub enum UnOp {
    Deref,
    Not,
    Neg,
}

#[derive(Clone, Copy, Debug, PartialEq, Eq, Structural)]
pub enum AssignOp {
    AddAssign,
    SubAssign,
    MulAssign,
    DivAssign,
    RemAssign,
}

} // verus!
