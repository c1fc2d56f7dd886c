use crate::parser::ast;
use crate::parser::ast::{
    AssociatedItem, AstId, AstNode, BlockExpr, Crate, EnumVariant, Expr, FnSig, GenericArg, GenericParam,
    GenericParamKind, Item, MatchArm, Param, Path, PathSegment, Pattern, PatternStructField, Stmt,
    StructExprField, StructFieldDef, Ty, VariantData,
};
use crate::resolver::defs::DefinitionMap;
use vstd::prelude::*;

verus! {

// What lowering needs of the syntax tree and the definitions: every node
// that defines something has its definition, every path has a resolution
// (a partial one resolving no more segments than the path has, or a full
// one), and no node is one that lowering does not handle (`for` loops,
// nodes standing for parse errors). `use` items are skipped wherever they
// stand.

pub open spec fn has_def(d: &DefinitionMap, id: AstId) -> bool {
    d.ast_to_def_view().contains_key(id.0)
}

pub open spec fn path_resolved(d: &DefinitionMap, p: AstNode<Path>) -> bool {
    if d.partial_res_view().contains_key(p.ast_id.0) {
        d.partial_res_view()[p.ast_id.0].spec_unresolved_segments() <= p.node.segments.len()
    } else {
        d.resolutions_view().contains_key(p.ast_id.0)
    }
}

pub open spec fn is_use_item(item: AstNode<Item>) -> bool {
    item.node is Use
}

pub open spec fn is_use_stmt(stmt: AstNode<Stmt>) -> bool {
    stmt.node matches Stmt::Item(item) && item.node is Use
}

pub open spec fn lowerable_crate(k: &Crate, d: &DefinitionMap) -> bool {
    forall|i: int|
        0 <= i < k.items.len() ==> is_use_item(#[trigger] k.items@[i]) || lowerable_item(
            k.items@[i],
            d,
        )
}

pub open spec fn lowerable_item(item: AstNode<Item>, d: &DefinitionMap) -> bool
    decreases item,
{
    match item.node {
        Item::Fn(f) => has_def(d, item.ast_id) && lowerable_fn_sig(f.sig, d) && lowerable_block(f.body, d),
        Item::Struct(s) => has_def(d, item.ast_id) && lowerable_generics(s.generics, d)
            && lowerable_variant_data(s.data, d),
        Item::Enum(e) => has_def(d, item.ast_id) && lowerable_generics(e.generics, d) && (forall|i: int|
            0 <= i < e.variants.len() ==> lowerable_enum_variant(#[trigger] e.variants@[i], d)),
        Item::Trait(t) => has_def(d, item.ast_id) && lowerable_generics(t.generics, d) && (forall|i: int|
            0 <= i < t.items.len() ==> lowerable_assoc_item(#[trigger] t.items@[i], d)),
        Item::Mod(m) => has_def(d, item.ast_id) && (forall|i: int|
            0 <= i < m.items.len() ==> is_use_item(#[trigger] m.items@[i]) || lowerable_item(m.items@[i], d)),
        Item::Impl(imp) => has_def(d, item.ast_id) && lowerable_generics(imp.generics, d)
            && lowerable_ty(imp.self_ty, d) && (match imp.for_trait {
            Some(p) => lowerable_path(p, d),
            None => true,
        }) && (forall|i: int| 0 <= i < imp.items.len() ==> lowerable_assoc_item(#[trigger] imp.items@[i], d)),
        Item::ExternFn(f) => has_def(d, item.ast_id) && lowerable_fn_sig(f.sig, d),
        Item::Const(c) => has_def(d, item.ast_id) && lowerable_generics(c.generics, d) && (match c.type_annotation {
            Some(t) => lowerable_ty(t, d),
            None => true,
        }) && lowerable_expr(c.expr, d),
        Item::Use(_) => false,
        Item::TyAlias(a) => has_def(d, item.ast_id) && lowerable_generics(a.generics, d) && (match a.ty {
            Some(t) => lowerable_ty(t, d),
            None => true,
        }),
        Item::Error => false,
    }
}

pub open spec fn lowerable_generics(g: Vec<AstNode<GenericParam>>, d: &DefinitionMap) -> bool
    decreases g,
{
    forall|i: int| 0 <= i < g.len() ==> lowerable_generic_param(#[trigger] g@[i], d)
}

pub open spec fn lowerable_generic_param(g: AstNode<GenericParam>, d: &DefinitionMap) -> bool
    decreases g,
{
    has_def(d, g.ast_id) && (forall|i: int|
        0 <= i < g.node.bounds.len() ==> lowerable_path(#[trigger] g.node.bounds@[i], d)) && match g.node.kind {
        GenericParamKind::Const(t) => lowerable_ty(t, d),
        GenericParamKind::Type => true,
    }
}

pub open spec fn lowerable_fn_sig(s: AstNode<FnSig>, d: &DefinitionMap) -> bool
    decreases s,
{
    lowerable_generics(s.node.generics, d) && (forall|i: int|
        0 <= i < s.node.params.len() ==> lowerable_param(#[trigger] s.node.params@[i], d)) && match s.node.return_ty {
        Some(t) => lowerable_ty(t, d),
        None => true,
    }
}

pub open spec fn lowerable_param(p: AstNode<Param>, d: &DefinitionMap) -> bool
    decreases p,
{
    lowerable_pattern(p.node.pattern, d) && lowerable_ty(p.node.type_annotation, d)
}

pub open spec fn lowerable_path(p: AstNode<Path>, d: &DefinitionMap) -> bool
    decreases p,
{
    path_resolved(d, p) && forall|i: int|
        0 <= i < p.node.segments.len() ==> lowerable_segment(#[trigger] p.node.segments@[i], d)
}

pub open spec fn lowerable_segment(s: AstNode<PathSegment>, d: &DefinitionMap) -> bool
    decreases s,
{
    forall|i: int| 0 <= i < s.node.args.len() ==> lowerable_generic_arg(#[trigger] s.node.args@[i], d)
}

pub open spec fn lowerable_generic_arg(a: AstNode<GenericArg>, d: &DefinitionMap) -> bool
    decreases a,
{
    match a.node {
        GenericArg::Type(t) => lowerable_ty(t, d),
        GenericArg::Const(e) => lowerable_expr(*e, d),
    }
}

pub open spec fn lowerable_ty(t: AstNode<Ty>, d: &DefinitionMap) -> bool
    decreases t,
{
    match t.node {
        Ty::Path(p) => lowerable_path(p, d),
        Ty::Array(inner, len) => lowerable_ty(*inner, d) && lowerable_expr(*len, d),
        Ty::Ptr(inner) => lowerable_ty(*inner, d),
        Ty::Fn(params, ret) => (forall|i: int| 0 <= i < params.len() ==> lowerable_ty(#[trigger] params@[i], d))
            && match *ret {
            Some(r) => lowerable_ty(r, d),
            None => true,
        },
        Ty::Tuple(tys) => forall|i: int| 0 <= i < tys.len() ==> lowerable_ty(#[trigger] tys@[i], d),
    }
}

pub open spec fn lowerable_variant_data(v: AstNode<VariantData>, d: &DefinitionMap) -> bool
    decreases v,
{
    match v.node {
        VariantData::Unit => true,
        VariantData::Struct { fields } => forall|i: int|
            0 <= i < fields.len() ==> lowerable_struct_field(#[trigger] fields@[i], d),
        VariantData::Tuple { types } => forall|i: int| 0 <= i < types.len() ==> lowerable_ty(#[trigger] types@[i], d),
    }
}

pub open spec fn lowerable_struct_field(f: AstNode<StructFieldDef>, d: &DefinitionMap) -> bool
    decreases f,
{
    has_def(d, f.ast_id) && lowerable_ty(f.node.type_annotation, d)
}

pub open spec fn lowerable_enum_variant(v: AstNode<EnumVariant>, d: &DefinitionMap) -> bool
    decreases v,
{
    has_def(d, v.ast_id) && lowerable_variant_data(v.node.data, d)
}

pub open spec fn lowerable_assoc_item(a: AstNode<AssociatedItem>, d: &DefinitionMap) -> bool
    decreases a,
{
    match a.node {
        AssociatedItem::Fn(sig, body) => lowerable_fn_sig(sig, d) && match body {
            Some(b) => lowerable_block(b, d),
            None => true,
        },
        AssociatedItem::Type(alias) => has_def(d, a.ast_id) && lowerable_generics(alias.node.generics, d)
            && match alias.node.ty {
            Some(t) => lowerable_ty(t, d),
            None => true,
        },
    }
}

pub open spec fn lowerable_block(b: AstNode<BlockExpr>, d: &DefinitionMap) -> bool
    decreases b,
{
    forall|i: int|
        0 <= i < b.node.stmts.len() ==> is_use_stmt(#[trigger] b.node.stmts@[i]) || lowerable_stmt(
            b.node.stmts@[i],
            d,
        )
}

pub open spec fn lowerable_stmt(s: AstNode<Stmt>, d: &DefinitionMap) -> bool
    decreases s,
{
    match s.node {
        Stmt::Let(l) => lowerable_pattern(l.pat, d) && (match l.type_annotation {
            Some(t) => lowerable_ty(t, d),
            None => true,
        }) && match l.expr {
            Some(e) => lowerable_expr(*e, d),
            None => true,
        },
        Stmt::Item(item) => lowerable_item(item, d),
        Stmt::Expr(e) => lowerable_expr(e, d),
        Stmt::Semi(e) => lowerable_expr(e, d),
        Stmt::Error => false,
    }
}

pub open spec fn lowerable_pattern(p: AstNode<Pattern>, d: &DefinitionMap) -> bool
    decreases p,
{
    match p.node {
        Pattern::Wildcard => true,
        Pattern::Or(ps) => forall|i: int| 0 <= i < ps.len() ==> lowerable_pattern(#[trigger] ps@[i], d),
        Pattern::Path(path) => lowerable_path(path, d),
        Pattern::Struct(path, fields) => lowerable_path(path, d) && forall|i: int|
            0 <= i < fields.len() ==> lowerable_pattern_field(#[trigger] fields@[i], d),
        Pattern::TupleStruct(path, ps) => lowerable_path(path, d) && forall|i: int|
            0 <= i < ps.len() ==> lowerable_pattern(#[trigger] ps@[i], d),
        Pattern::Tuple(ps) => forall|i: int| 0 <= i < ps.len() ==> lowerable_pattern(#[trigger] ps@[i], d),
        Pattern::Expr(e) => lowerable_expr(*e, d),
        Pattern::Paren(inner) => lowerable_pattern(*inner, d),
    }
}

pub open spec fn lowerable_pattern_field(f: AstNode<PatternStructField>, d: &DefinitionMap) -> bool
    decreases f,
{
    lowerable_pattern(f.node.pattern, d)
}

pub open spec fn lowerable_exprs(v: Vec<AstNode<Expr>>, d: &DefinitionMap) -> bool
    decreases v,
{
    forall|i: int| 0 <= i < v.len() ==> lowerable_expr(#[trigger] v@[i], d)
}

pub open spec fn lowerable_opt_expr(e: Option<Box<AstNode<Expr>>>, d: &DefinitionMap) -> bool
    decreases e,
{
    match e {
        Some(e) => lowerable_expr(*e, d),
        None => true,
    }
}

pub open spec fn lowerable_expr(e: AstNode<Expr>, d: &DefinitionMap) -> bool
    decreases e,
{
    match e.node {
        Expr::Array(a) => lowerable_exprs(a.expressions, d),
        Expr::Struct(s) => lowerable_path(s.name, d) && forall|i: int|
            0 <= i < s.fields.len() ==> lowerable_struct_expr_field(#[trigger] s.fields@[i], d),
        Expr::Call(c) => lowerable_expr(*c.callee, d) && lowerable_exprs(c.arguments, d),
        Expr::MethodCall(m) => lowerable_expr(*m.receiver, d) && lowerable_segment(m.name, d)
            && lowerable_exprs(m.arguments, d),
        Expr::Tuple(t) => lowerable_exprs(t.expressions, d),
        Expr::Cast(c) => lowerable_expr(*c.expr, d) && lowerable_ty(c.ty, d),
        Expr::Return(r) => lowerable_opt_expr(r.value, d),
        Expr::While(w) => lowerable_expr(*w.condition, d) && lowerable_block(*w.body, d),
        Expr::Loop(l) => lowerable_block(*l.body, d),
        Expr::For(_) => false,
        Expr::Assign(a) => lowerable_expr(*a.target, d) && lowerable_expr(*a.value, d),
        Expr::AssignOp(a) => lowerable_expr(*a.target, d) && lowerable_expr(*a.value, d),
        Expr::FieldAccess(f) => lowerable_expr(*f.target, d),
        Expr::Index(i) => lowerable_expr(*i.target, d) && lowerable_expr(*i.index, d),
        Expr::Path(p) => lowerable_path(p.path, d),
        Expr::AddrOf(a) => lowerable_expr(*a.expr, d),
        Expr::Break(b) => lowerable_opt_expr(b.expr, d),
        Expr::Continue => true,
        Expr::Literal(_) => true,
        Expr::Binary(b) => lowerable_expr(*b.left, d) && lowerable_expr(*b.right, d),
        Expr::Unary(u) => lowerable_expr(*u.operand, d),
        Expr::If(i) => lowerable_expr(*i.condition, d) && lowerable_block(*i.then_branch, d) && match i.else_branch {
            Some(b) => lowerable_block(*b, d),
            None => true,
        },
        Expr::Block(b) => forall|i: int|
            0 <= i < b.stmts.len() ==> is_use_stmt(#[trigger] b.stmts@[i]) || lowerable_stmt(b.stmts@[i], d),
        Expr::Match(m) => lowerable_expr(*m.value, d) && forall|i: int|
            0 <= i < m.arms.len() ==> lowerable_match_arm(#[trigger] m.arms@[i], d),
        Expr::Let(l) => lowerable_pattern(l.pattern, d) && lowerable_expr(*l.value, d),
        Expr::Paren(inner) => lowerable_expr(*inner, d),
        Expr::Error => true,
    }
}

pub open spec fn lowerable_struct_expr_field(f: AstNode<StructExprField>, d: &DefinitionMap) -> bool
    decreases f,
{
    lowerable_expr(*f.node.expr, d)
}

pub open spec fn lowerable_match_arm(a: AstNode<MatchArm>, d: &DefinitionMap) -> bool
    decreases a,
{
    lowerable_pattern(a.node.pattern, d) && lowerable_expr(*a.node.body, d)
}

fn has_def_exec(d: &DefinitionMap, id: AstId) -> (r: bool)
    ensures
        r == has_def(d, id),
{
    d.get_def_from_ast(id).is_some()
}

fn is_use_item_exec(item: &AstNode<ast::Item>) -> (r: bool)
    ensures
        r == is_use_item(*item),
{
    match &item.node {
        ast::Item::Use(_) => true,
        _ => false,
    }
}

fn is_use_stmt_exec(stmt: &AstNode<ast::Stmt>) -> (r: bool)
    ensures
        r == is_use_stmt(*stmt),
{
    match &stmt.node {
        ast::Stmt::Item(item) => is_use_item_exec(item),
        _ => false,
    }
}

/// Whether lowering can take the crate with these definitions.
pub fn check_crate(k: &ast::Crate, d: &DefinitionMap) -> (r: bool)
    ensures
        r == lowerable_crate(k, d),
{
    check_crate_items(&k.items, d)
}

fn check_opt_ty(t: &Option<AstNode<ast::Ty>>, d: &DefinitionMap) -> (r: bool)
    ensures
        r == match *t {
            Some(t) => lowerable_ty(t, d),
            None => true,
        },
    decreases t,
{
    match t {
        Some(t) => check_ty(t, d),
        None => true,
    }
}

fn check_item(item: &AstNode<ast::Item>, d: &DefinitionMap) -> (r: bool)
    ensures
        r == lowerable_item(*item, d),
    decreases item,
{
    match &item.node {
        ast::Item::Fn(f) => has_def_exec(d, item.ast_id) && check_fn_sig(&f.sig, d) && check_block(&f.body, d),
        ast::Item::Struct(s) => has_def_exec(d, item.ast_id) && check_generics(&s.generics, d) && check_variant_data(&s.data, d),
        ast::Item::Enum(e) => has_def_exec(d, item.ast_id) && check_generics(&e.generics, d) && check_enum_variants(&e.variants, d),
        ast::Item::Trait(t) => has_def_exec(d, item.ast_id) && check_generics(&t.generics, d) && check_assoc_items(&t.items, d),
        ast::Item::Mod(m) => has_def_exec(d, item.ast_id) && check_crate_items(&m.items, d),
        ast::Item::Impl(imp) => has_def_exec(d, item.ast_id) && check_generics(&imp.generics, d) && check_ty(&imp.self_ty, d)
            && (match &imp.for_trait {
            Some(p) => check_path(p, d),
            None => true,
        }) && check_assoc_items(&imp.items, d),
        ast::Item::ExternFn(f) => has_def_exec(d, item.ast_id) && check_fn_sig(&f.sig, d),
        ast::Item::Const(c) => has_def_exec(d, item.ast_id) && check_generics(&c.generics, d) && check_opt_ty(&c.type_annotation, d)
            && check_expr(&c.expr, d),
        ast::Item::Use(_) => false,
        ast::Item::TyAlias(a) => has_def_exec(d, item.ast_id) && check_generics(&a.generics, d) && check_opt_ty(&a.ty, d),
        ast::Item::Error => false,
    }
}

fn check_generic_param(g: &AstNode<ast::GenericParam>, d: &DefinitionMap) -> (r: bool)
    ensures
        r == lowerable_generic_param(*g, d),
    decreases g,
{
    has_def_exec(d, g.ast_id) && check_paths(&g.node.bounds, d) && match &g.node.kind {
        ast::GenericParamKind::Const(t) => check_ty(t, d),
        ast::GenericParamKind::Type => true,
    }
}

fn check_fn_sig(s: &AstNode<ast::FnSig>, d: &DefinitionMap) -> (r: bool)
    ensures
        r == lowerable_fn_sig(*s, d),
    decreases s,
{
    check_generics(&s.node.generics, d) && check_params(&s.node.params, d) && check_opt_ty(&s.node.return_ty, d)
}

fn check_param(p: &AstNode<ast::Param>, d: &DefinitionMap) -> (r: bool)
    ensures
        r == lowerable_param(*p, d),
    decreases p,
{
    check_pattern(&p.node.pattern, d) && check_ty(&p.node.type_annotation, d)
}

fn check_path(p: &AstNode<ast::Path>, d: &DefinitionMap) -> (r: bool)
    ensures
        r == lowerable_path(*p, d),
    decreases p,
{
    let resolved = match d.get_partial_res(p.ast_id) {
        Some(pr) => pr.unresolved_segments() <= p.node.segments.len(),
        None => d.get_resolution(p.ast_id).is_some(),
    };
    resolved && check_segments(&p.node.segments, d)
}

fn check_segment(s: &AstNode<ast::PathSegment>, d: &DefinitionMap) -> (r: bool)
    ensures
        r == lowerable_segment(*s, d),
    decreases s,
{
    check_generic_args(&s.node.args, d)
}

fn check_generic_arg(a: &AstNode<ast::GenericArg>, d: &DefinitionMap) -> (r: bool)
    ensures
        r == lowerable_generic_arg(*a, d),
    decreases a,
{
    match &a.node {
        ast::GenericArg::Type(t) => check_ty(t, d),
        ast::GenericArg::Const(e) => check_expr(e, d),
    }
}

fn check_ty(t: &AstNode<ast::Ty>, d: &DefinitionMap) -> (r: bool)
    ensures
        r == lowerable_ty(*t, d),
    decreases t,
{
    match &t.node {
        ast::Ty::Path(p) => check_path(p, d),
        ast::Ty::Array(inner, len) => check_ty(inner, d) && check_expr(len, d),
        ast::Ty::Ptr(inner) => check_ty(inner, d),
        ast::Ty::Fn(params, ret) => check_tys(params, d) && match &**ret {
            Some(r) => check_ty(r, d),
            None => true,
        },
        ast::Ty::Tuple(tys) => check_tys(tys, d),
    }
}

fn check_variant_data(v: &AstNode<ast::VariantData>, d: &DefinitionMap) -> (r: bool)
    ensures
        r == lowerable_variant_data(*v, d),
    decreases v,
{
    match &v.node {
        ast::VariantData::Unit => true,
        ast::VariantData::Struct { fields } => check_struct_fields(fields, d),
        ast::VariantData::Tuple { types } => check_tys(types, d),
    }
}

fn check_struct_field(f: &AstNode<ast::StructFieldDef>, d: &DefinitionMap) -> (r: bool)
    ensures
        r == lowerable_struct_field(*f, d),
    decreases f,
{
    has_def_exec(d, f.ast_id) && check_ty(&f.node.type_annotation, d)
}

fn check_enum_variant(v: &AstNode<ast::EnumVariant>, d: &DefinitionMap) -> (r: bool)
    ensures
        r == lowerable_enum_variant(*v, d),
    decreases v,
{
    has_def_exec(d, v.ast_id) && check_variant_data(&v.node.data, d)
}

fn check_assoc_item(a: &AstNode<ast::AssociatedItem>, d: &DefinitionMap) -> (r: bool)
    ensures
        r == lowerable_assoc_item(*a, d),
    decreases a,
{
    match &a.node {
        ast::AssociatedItem::Fn(sig, body) => check_fn_sig(sig, d) && match body {
            Some(b) => check_block(b, d),
            None => true,
        },
        ast::AssociatedItem::Type(alias) => has_def_exec(d, a.ast_id) && check_generics(&alias.node.generics, d)
            && check_opt_ty(&alias.node.ty, d),
    }
}

fn check_block(b: &AstNode<ast::BlockExpr>, d: &DefinitionMap) -> (r: bool)
    ensures
        r == lowerable_block(*b, d),
    decreases b,
{
    check_stmts(&b.node.stmts, d)
}

fn check_stmt(s: &AstNode<ast::Stmt>, d: &DefinitionMap) -> (r: bool)
    ensures
        r == lowerable_stmt(*s, d),
    decreases s,
{
    match &s.node {
        ast::Stmt::Let(l) => check_pattern(&l.pat, d) && check_opt_ty(&l.type_annotation, d) && match &l.expr {
            Some(e) => check_expr(e, d),
            None => true,
        },
        ast::Stmt::Item(item) => check_item(item, d),
        ast::Stmt::Expr(e) => check_expr(e, d),
        ast::Stmt::Semi(e) => check_expr(e, d),
        ast::Stmt::Error => false,
    }
}

fn check_pattern(p: &AstNode<ast::Pattern>, d: &DefinitionMap) -> (r: bool)
    ensures
        r == lowerable_pattern(*p, d),
    decreases p,
{
    match &p.node {
        ast::Pattern::Wildcard => true,
        ast::Pattern::Or(ps) => check_patterns(ps, d),
        ast::Pattern::Path(path) => check_path(path, d),
        ast::Pattern::Struct(path, fields) => check_path(path, d) && check_pattern_fields(fields, d),
        ast::Pattern::TupleStruct(path, ps) => check_path(path, d) && check_patterns(ps, d),
        ast::Pattern::Tuple(ps) => check_patterns(ps, d),
        ast::Pattern::Expr(e) => check_expr(e, d),
        ast::Pattern::Paren(inner) => check_pattern(inner, d),
    }
}

fn check_pattern_field(f: &AstNode<ast::PatternStructField>, d: &DefinitionMap) -> (r: bool)
    ensures
        r == lowerable_pattern_field(*f, d),
    decreases f,
{
    check_pattern(&f.node.pattern, d)
}

fn check_opt_expr(e: &Option<Box<AstNode<ast::Expr>>>, d: &DefinitionMap) -> (r: bool)
    ensures
        r == lowerable_opt_expr(*e, d),
    decreases e,
{
    match e {
        Some(e) => check_expr(e, d),
        None => true,
    }
}

fn check_expr(e: &AstNode<ast::Expr>, d: &DefinitionMap) -> (r: bool)
    ensures
        r == lowerable_expr(*e, d),
    decreases e,
{
    match &e.node {
        ast::Expr::Array(a) => check_exprs(&a.expressions, d),
        ast::Expr::Struct(s) => check_path(&s.name, d) && check_struct_expr_fields(&s.fields, d),
        ast::Expr::Call(c) => check_expr(&c.callee, d) && check_exprs(&c.arguments, d),
        ast::Expr::MethodCall(m) => check_expr(&m.receiver, d) && check_segment(&m.name, d) && check_exprs(&m.arguments, d),
        ast::Expr::Tuple(t) => check_exprs(&t.expressions, d),
        ast::Expr::Cast(c) => check_expr(&c.expr, d) && check_ty(&c.ty, d),
        ast::Expr::Return(r) => check_opt_expr(&r.value, d),
        ast::Expr::While(w) => check_expr(&w.condition, d) && check_block(&w.body, d),
        ast::Expr::Loop(l) => check_block(&l.body, d),
        ast::Expr::For(_) => false,
        ast::Expr::Assign(a) => check_expr(&a.target, d) && check_expr(&a.value, d),
        ast::Expr::AssignOp(a) => check_expr(&a.target, d) && check_expr(&a.value, d),
        ast::Expr::FieldAccess(f) => check_expr(&f.target, d),
        ast::Expr::Index(i) => check_expr(&i.target, d) && check_expr(&i.index, d),
        ast::Expr::Path(p) => check_path(&p.path, d),
        ast::Expr::AddrOf(a) => check_expr(&a.expr, d),
        ast::Expr::Break(b) => check_opt_expr(&b.expr, d),
        ast::Expr::Continue => true,
        ast::Expr::Literal(_) => true,
        ast::Expr::Binary(b) => check_expr(&b.left, d) && check_expr(&b.right, d),
        ast::Expr::Unary(u) => check_expr(&u.operand, d),
        ast::Expr::If(i) => check_expr(&i.condition, d) && check_block(&i.then_branch, d) && match &i.else_branch {
            Some(b) => check_block(b, d),
            None => true,
        },
        ast::Expr::Block(b) => check_stmts(&b.stmts, d),
        ast::Expr::Match(m) => check_expr(&m.value, d) && check_match_arms(&m.arms, d),
        ast::Expr::Let(l) => check_pattern(&l.pattern, d) && check_expr(&l.value, d),
        ast::Expr::Paren(inner) => check_expr(inner, d),
        ast::Expr::Error => true,
    }
}

fn check_struct_expr_field(f: &AstNode<ast::StructExprField>, d: &DefinitionMap) -> (r: bool)
    ensures
        r == lowerable_struct_expr_field(*f, d),
    decreases f,
{
    check_expr(&f.node.expr, d)
}

fn check_match_arm(a: &AstNode<ast::MatchArm>, d: &DefinitionMap) -> (r: bool)
    ensures
        r == lowerable_match_arm(*a, d),
    decreases a,
{
    check_pattern(&a.node.pattern, d) && check_expr(&a.node.body, d)
}

fn check_generics(v: &Vec<AstNode<ast::GenericParam>>, d: &DefinitionMap) -> (r: bool)
    ensures
        r == lowerable_generics(*v, d),
    decreases v,
{
    let mut i: usize = 0;
    while i < v.len()
        invariant
            i <= v.len(),
            forall|j: int| 0 <= j < i ==> lowerable_generic_param(#[trigger] v@[j], d),
        decreases v.len() - i,
    {
        proof {
            assert(decreases_to!(*v => v[i as int]));
        }
        if !(check_generic_param(&v[i], d)) {
            return false;
        }
        i = i + 1;
    }
    true
}

fn check_params(v: &Vec<AstNode<ast::Param>>, d: &DefinitionMap) -> (r: bool)
    ensures
        r == (forall|j: int| 0 <= j < v.len() ==> lowerable_param(#[trigger] v@[j], d)),
    decreases v,
{
    let mut i: usize = 0;
    while i < v.len()
        invariant
            i <= v.len(),
            forall|j: int| 0 <= j < i ==> lowerable_param(#[trigger] v@[j], d),
        decreases v.len() - i,
    {
        proof {
            assert(decreases_to!(*v => v[i as int]));
        }
        if !(check_param(&v[i], d)) {
            return false;
        }
        i = i + 1;
    }
    true
}

fn check_paths(v: &Vec<AstNode<ast::Path>>, d: &DefinitionMap) -> (r: bool)
    ensures
        r == (forall|j: int| 0 <= j < v.len() ==> lowerable_path(#[trigger] v@[j], d)),
    decreases v,
{
    let mut i: usize = 0;
    while i < v.len()
        invariant
            i <= v.len(),
            forall|j: int| 0 <= j < i ==> lowerable_path(#[trigger] v@[j], d),
        decreases v.len() - i,
    {
        proof {
            assert(decreases_to!(*v => v[i as int]));
        }
        if !(check_path(&v[i], d)) {
            return false;
        }
        i = i + 1;
    }
    true
}

fn check_segments(v: &Vec<AstNode<ast::PathSegment>>, d: &DefinitionMap) -> (r: bool)
    ensures
        r == (forall|j: int| 0 <= j < v.len() ==> lowerable_segment(#[trigger] v@[j], d)),
    decreases v,
{
    let mut i: usize = 0;
    while i < v.len()
        invariant
            i <= v.len(),
            forall|j: int| 0 <= j < i ==> lowerable_segment(#[trigger] v@[j], d),
        decreases v.len() - i,
    {
        proof {
            assert(decreases_to!(*v => v[i as int]));
        }
        if !(check_segment(&v[i], d)) {
            return false;
        }
        i = i + 1;
    }
    true
}

fn check_generic_args(v: &Vec<AstNode<ast::GenericArg>>, d: &DefinitionMap) -> (r: bool)
    ensures
        r == (forall|j: int| 0 <= j < v.len() ==> lowerable_generic_arg(#[trigger] v@[j], d)),
    decreases v,
{
    let mut i: usize = 0;
    while i < v.len()
        invariant
            i <= v.len(),
            forall|j: int| 0 <= j < i ==> lowerable_generic_arg(#[trigger] v@[j], d),
        decreases v.len() - i,
    {
        proof {
            assert(decreases_to!(*v => v[i as int]));
        }
        if !(check_generic_arg(&v[i], d)) {
            return false;
        }
        i = i + 1;
    }
    true
}

fn check_tys(v: &Vec<AstNode<ast::Ty>>, d: &DefinitionMap) -> (r: bool)
    ensures
        r == (forall|j: int| 0 <= j < v.len() ==> lowerable_ty(#[trigger] v@[j], d)),
    decreases v,
{
    let mut i: usize = 0;
    while i < v.len()
        invariant
            i <= v.len(),
            forall|j: int| 0 <= j < i ==> lowerable_ty(#[trigger] v@[j], d),
        decreases v.len() - i,
    {
        proof {
            assert(decreases_to!(*v => v[i as int]));
        }
        if !(check_ty(&v[i], d)) {
            return false;
        }
        i = i + 1;
    }
    true
}

fn check_struct_fields(v: &Vec<AstNode<ast::StructFieldDef>>, d: &DefinitionMap) -> (r: bool)
    ensures
        r == (forall|j: int| 0 <= j < v.len() ==> lowerable_struct_field(#[trigger] v@[j], d)),
    decreases v,
{
    let mut i: usize = 0;
    while i < v.len()
        invariant
            i <= v.len(),
            forall|j: int| 0 <= j < i ==> lowerable_struct_field(#[trigger] v@[j], d),
        decreases v.len() - i,
    {
        proof {
            assert(decreases_to!(*v => v[i as int]));
        }
        if !(check_struct_field(&v[i], d)) {
            return false;
        }
        i = i + 1;
    }
    true
}

fn check_enum_variants(v: &Vec<AstNode<ast::EnumVariant>>, d: &DefinitionMap) -> (r: bool)
    ensures
        r == (forall|j: int| 0 <= j < v.len() ==> lowerable_enum_variant(#[trigger] v@[j], d)),
    decreases v,
{
    let mut i: usize = 0;
    while i < v.len()
        invariant
            i <= v.len(),
            forall|j: int| 0 <= j < i ==> lowerable_enum_variant(#[trigger] v@[j], d),
        decreases v.len() - i,
    {
        proof {
            assert(decreases_to!(*v => v[i as int]));
        }
        if !(check_enum_variant(&v[i], d)) {
            return false;
        }
        i = i + 1;
    }
    true
}

fn check_assoc_items(v: &Vec<AstNode<ast::AssociatedItem>>, d: &DefinitionMap) -> (r: bool)
    ensures
        r == (forall|j: int| 0 <= j < v.len() ==> lowerable_assoc_item(#[trigger] v@[j], d)),
    decreases v,
{
    let mut i: usize = 0;
    while i < v.len()
        invariant
            i <= v.len(),
            forall|j: int| 0 <= j < i ==> lowerable_assoc_item(#[trigger] v@[j], d),
        decreases v.len() - i,
    {
        proof {
            assert(decreases_to!(*v => v[i as int]));
        }
        if !(check_assoc_item(&v[i], d)) {
            return false;
        }
        i = i + 1;
    }
    true
}

fn check_stmts(v: &Vec<AstNode<ast::Stmt>>, d: &DefinitionMap) -> (r: bool)
    ensures
        r == (forall|j: int| 0 <= j < v.len() ==> is_use_stmt(#[trigger] v@[j]) || lowerable_stmt(v@[j], d)),
    decreases v,
{
    let mut i: usize = 0;
    while i < v.len()
        invariant
            i <= v.len(),
            forall|j: int| 0 <= j < i ==> is_use_stmt(#[trigger] v@[j]) || lowerable_stmt(v@[j], d),
        decreases v.len() - i,
    {
        proof {
            assert(decreases_to!(*v => v[i as int]));
        }
        if !(is_use_stmt_exec(&v[i]) || check_stmt(&v[i], d)) {
            return false;
        }
        i = i + 1;
    }
    true
}

fn check_crate_items(v: &Vec<AstNode<ast::Item>>, d: &DefinitionMap) -> (r: bool)
    ensures
        r == (forall|j: int| 0 <= j < v.len() ==> is_use_item(#[trigger] v@[j]) || lowerable_item(v@[j], d)),
    decreases v,
{
    let mut i: usize = 0;
    while i < v.len()
        invariant
            i <= v.len(),
            forall|j: int| 0 <= j < i ==> is_use_item(#[trigger] v@[j]) || lowerable_item(v@[j], d),
        decreases v.len() - i,
    {
        proof {
            assert(decreases_to!(*v => v[i as int]));
        }
        if !(is_use_item_exec(&v[i]) || check_item(&v[i], d)) {
            return false;
        }
        i = i + 1;
    }
    true
}

fn check_patterns(v: &Vec<AstNode<ast::Pattern>>, d: &DefinitionMap) -> (r: bool)
    ensures
        r == (forall|j: int| 0 <= j < v.len() ==> lowerable_pattern(#[trigger] v@[j], d)),
    decreases v,
{
    let mut i: usize = 0;
    while i < v.len()
        invariant
            i <= v.len(),
            forall|j: int| 0 <= j < i ==> lowerable_pattern(#[trigger] v@[j], d),
        decreases v.len() - i,
    {
        proof {
            assert(decreases_to!(*v => v[i as int]));
        }
        if !(check_pattern(&v[i], d)) {
            return false;
        }
        i = i + 1;
    }
    true
}

fn check_pattern_fields(v: &Vec<AstNode<ast::PatternStructField>>, d: &DefinitionMap) -> (r: bool)
    ensures
        r == (forall|j: int| 0 <= j < v.len() ==> lowerable_pattern_field(#[trigger] v@[j], d)),
    decreases v,
{
    let mut i: usize = 0;
    while i < v.len()
        invariant
            i <= v.len(),
            forall|j: int| 0 <= j < i ==> lowerable_pattern_field(#[trigger] v@[j], d),
        decreases v.len() - i,
    {
        proof {
            assert(decreases_to!(*v => v[i as int]));
        }
        if !(check_pattern_field(&v[i], d)) {
            return false;
        }
        i = i + 1;
    }
    true
}

fn check_exprs(v: &Vec<AstNode<ast::Expr>>, d: &DefinitionMap) -> (r: bool)
    ensures
        r == lowerable_exprs(*v, d),
    decreases v,
{
    let mut i: usize = 0;
    while i < v.len()
        invariant
            i <= v.len(),
            forall|j: int| 0 <= j < i ==> lowerable_expr(#[trigger] v@[j], d),
        decreases v.len() - i,
    {
        proof {
            assert(decreases_to!(*v => v[i as int]));
        }
        if !(check_expr(&v[i], d)) {
            return false;
        }
        i = i + 1;
    }
    true
}

fn check_struct_expr_fields(v: &Vec<AstNode<ast::StructExprField>>, d: &DefinitionMap) -> (r: bool)
    ensures
        r == (forall|j: int| 0 <= j < v.len() ==> lowerable_struct_expr_field(#[trigger] v@[j], d)),
    decreases v,
{
    let mut i: usize = 0;
    while i < v.len()
        invariant
            i <= v.len(),
            forall|j: int| 0 <= j < i ==> lowerable_struct_expr_field(#[trigger] v@[j], d),
        decreases v.len() - i,
    {
        proof {
            assert(decreases_to!(*v => v[i as int]));
        }
        if !(check_struct_expr_field(&v[i], d)) {
            return false;
        }
        i = i + 1;
    }
    true
}

fn check_match_arms(v: &Vec<AstNode<ast::MatchArm>>, d: &DefinitionMap) -> (r: bool)
    ensures
        r == (forall|j: int| 0 <= j < v.len() ==> lowerable_match_arm(#[trigger] v@[j], d)),
    decreases v,
{
    let mut i: usize = 0;
    while i < v.len()
        invariant
            i <= v.len(),
            forall|j: int| 0 <= j < i ==> lowerable_match_arm(#[trigger] v@[j], d),
        decreases v.len() - i,
    {
        proof {
            assert(decreases_to!(*v => v[i as int]));
        }
        if !(check_match_arm(&v[i], d)) {
            return false;
        }
        i = i + 1;
    }
    true
}

} // verus!
