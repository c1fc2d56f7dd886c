use crate::ast_lowerer::ast_lowerer::{literal_lowers_to, spec_lower_assign_op, spec_lower_bin_op, spec_lower_un_op};
use crate::ast_lowerer::hir;
use crate::ast_lowerer::hir::HirNode;
use crate::ast_lowerer::lowerable::{is_use_item, is_use_stmt};
use crate::parser::ast;
use crate::parser::ast::{AstId, AstNode, Ident};
use crate::resolver::defs::{DefId, DefinitionMap};
use crate::span::Span;
use vstd::prelude::*;

verus! {

// What lowering makes of each node of the syntax tree, node by node: each
// lowered node keeps the span of the node it comes from (the nodes that
// lowering adds take the span of the node they stand for), each definition
// gets the id that name resolution gave it, each path its resolution.

/// The definition that name resolution made of a node.
pub open spec fn def_of_node(d: &DefinitionMap, id: AstId) -> DefId {
    d.ast_to_def_view()[id.0]
}

pub open spec fn ident_lowered(a: AstNode<Ident>, h: HirNode<Ident>) -> bool {
    h.span == a.span && h.node.name@ == a.node.name@
}

pub open spec fn opt_expr_lowered(a: Option<Box<AstNode<ast::Expr>>>, h: Option<Box<HirNode<hir::Expr>>>, d: &DefinitionMap) -> bool
    decreases a,
{
    match (a, h) {
        (Some(x), Some(y)) => expr_lowered(*x, *y, d),
        (None, None) => true,
        _ => false,
    }
}

pub open spec fn opt_ty_lowered(a: Option<AstNode<ast::Ty>>, h: Option<HirNode<hir::Ty>>, d: &DefinitionMap) -> bool
    decreases a,
{
    match (a, h) {
        (Some(x), Some(y)) => ty_lowered(x, y, d),
        (None, None) => true,
        _ => false,
    }
}

pub open spec fn opt_block_lowered(a: Option<AstNode<ast::BlockExpr>>, h: Option<HirNode<hir::BlockExpr>>, d: &DefinitionMap) -> bool
    decreases a,
{
    match (a, h) {
        (Some(x), Some(y)) => block_lowered(x, y, d),
        (None, None) => true,
        _ => false,
    }
}

/// A path keeps its segments, with their resolution: a partial resolution
/// splits them into those it resolved and the rest.
pub open spec fn path_lowered(a: AstNode<ast::Path>, h: HirNode<hir::Path>, d: &DefinitionMap) -> bool
    decreases a,
{
    &&& h.span == a.span
    &&& if d.partial_res_view().contains_key(a.ast_id.0) {
        let pr = d.partial_res_view()[a.ast_id.0];
        match h.node {
            hir::Path::Unresolved { res, resolved_segments, unresolved_segments } => {
                let k = resolved_segments@.len() as int;
                &&& res == pr.spec_base_res()
                &&& unresolved_segments@.len() == pr.spec_unresolved_segments()
                &&& k + unresolved_segments@.len() == a.node.segments@.len()
                &&& segments_split_lowered(a.node.segments@, k, resolved_segments@, unresolved_segments@, d)
            },
            _ => false,
        }
    } else {
        match h.node {
            hir::Path::Resolved { res, segments } => {
                &&& res == d.resolutions_view()[a.ast_id.0]
                &&& segments_lowered(a.node.segments@, segments@, d)
            },
            _ => false,
        }
    }
}

/// The first `k` segments lowered to `resolved`, the rest to `unresolved`.
pub open spec fn segments_split_lowered(
    a: Seq<AstNode<ast::PathSegment>>,
    k: int,
    resolved: Seq<HirNode<hir::PathSegment>>,
    unresolved: Seq<HirNode<hir::PathSegment>>,
    d: &DefinitionMap,
) -> bool
    decreases a,
{
    if a.len() == 0 {
        resolved.len() == 0 && unresolved.len() == 0
    } else if a.len() - 1 >= k {
        unresolved.len() > 0 && segments_split_lowered(a.drop_last(), k, resolved, unresolved.drop_last(), d)
            && segment_lowered(a.last(), unresolved.last(), d)
    } else {
        resolved.len() > 0 && segments_split_lowered(a.drop_last(), k, resolved.drop_last(), unresolved, d)
            && segment_lowered(a.last(), resolved.last(), d)
    }
}

pub open spec fn segment_lowered(a: AstNode<ast::PathSegment>, h: HirNode<hir::PathSegment>, d: &DefinitionMap) -> bool
    decreases a,
{
    &&& h.span == a.span
    &&& ident_lowered(a.node.ident, h.node.ident)
    &&& args_lowered(a.node.args@, h.node.args@, d)
}

pub open spec fn arg_lowered(a: AstNode<ast::GenericArg>, h: HirNode<hir::GenericArg>, d: &DefinitionMap) -> bool
    decreases a,
{
    &&& h.span == a.span
    &&& match (a.node, h.node) {
        (ast::GenericArg::Type(t), hir::GenericArg::Type(u)) => ty_lowered(t, u, d),
        (ast::GenericArg::Const(e), hir::GenericArg::Const(f)) => expr_lowered(*e, *f, d),
        _ => false,
    }
}

pub open spec fn ty_lowered(a: AstNode<ast::Ty>, h: HirNode<hir::Ty>, d: &DefinitionMap) -> bool
    decreases a,
{
    &&& h.span == a.span
    &&& match a.node {
        ast::Ty::Path(p) => h.node matches hir::Ty::Path(q) && path_lowered(p, q, d),
        ast::Ty::Array(t, e) => h.node matches hir::Ty::Array(u, f) && ty_lowered(*t, *u, d) && expr_lowered(*e, *f, d),
        ast::Ty::Ptr(t) => h.node matches hir::Ty::Ptr(u) && ty_lowered(*t, *u, d),
        ast::Ty::Fn(ps, r) => h.node matches hir::Ty::Fn(qs, s) && tys_lowered(ps@, qs@, d) && match (*r, s) {
            (Some(x), Some(y)) => ty_lowered(x, *y, d),
            (None, None) => true,
            _ => false,
        },
        ast::Ty::Tuple(ts) => h.node matches hir::Ty::Tuple(us) && tys_lowered(ts@, us@, d),
    }
}

/// A block of one statement, the expression `break`, all at `span`.
pub open spec fn is_break_block(h: HirNode<hir::BlockExpr>, span: Span) -> bool {
    &&& h.span == span
    &&& h.node.stmts@.len() == 1
    &&& h.node.stmts@[0].span == span
    &&& match h.node.stmts@[0].node {
        hir::Stmt::Expr(e) => e.span == span && e.node matches hir::Expr::Break(None),
        _ => false,
    }
}

pub open spec fn expr_lowered(a: AstNode<ast::Expr>, h: HirNode<hir::Expr>, d: &DefinitionMap) -> bool
    decreases a,
{
    h.span == a.span && expr_kind_lowered(a.node, a.span, h.node, d)
}

/// What an expression at `span` becomes: `while c { b }` becomes
/// `loop { if c { b } else { break } }`, `a op= b` becomes `a = a op b`
/// (the nodes added take the span of the expression), parentheses
/// disappear, and the rest keeps its form.
pub open spec fn expr_kind_lowered(a: ast::Expr, span: Span, h: hir::Expr, d: &DefinitionMap) -> bool
    decreases a,
{
    match a {
        ast::Expr::Array(x) => h matches hir::Expr::Array(v) && exprs_lowered(x.expressions@, v@, d),
        ast::Expr::Struct(x) => h matches hir::Expr::Struct(s) && path_lowered(x.name, s.path, d)
            && expr_fields_lowered(x.fields@, s.fields@, d),
        ast::Expr::Call(x) => h matches hir::Expr::Call(c) && expr_lowered(*x.callee, *c.callee, d)
            && exprs_lowered(x.arguments@, c.args@, d),
        ast::Expr::MethodCall(x) => h matches hir::Expr::MethodCall(m) && expr_lowered(*x.receiver, *m.receiver, d)
            && segment_lowered(x.name, m.method, d) && exprs_lowered(x.arguments@, m.args@, d),
        ast::Expr::Tuple(x) => h matches hir::Expr::Tuple(v) && exprs_lowered(x.expressions@, v@, d),
        ast::Expr::Cast(x) => h matches hir::Expr::Cast(c) && expr_lowered(*x.expr, *c.expr, d) && ty_lowered(
            x.ty,
            c.ty,
            d,
        ),
        ast::Expr::Return(r) => h matches hir::Expr::Return(v) && opt_expr_lowered(r.value, v, d),
        ast::Expr::While(w) => match h {
            hir::Expr::Loop(l) => {
                &&& l.body.span == span
                &&& l.body.node.stmts@.len() == 1
                &&& l.body.node.stmts@[0].span == span
                &&& match l.body.node.stmts@[0].node {
                    hir::Stmt::Expr(ie) => ie.span == span && match ie.node {
                        hir::Expr::If(i) => expr_lowered(*w.condition, *i.condition, d) && block_lowered(
                            *w.body,
                            i.then_branch,
                            d,
                        ) && match i.else_branch {
                            Some(eb) => is_break_block(eb, span),
                            None => false,
                        },
                        _ => false,
                    },
                    _ => false,
                }
            },
            _ => false,
        },
        ast::Expr::Loop(x) => h matches hir::Expr::Loop(l) && block_lowered(*x.body, l.body, d),
        ast::Expr::For(_) => false,
        ast::Expr::Assign(x) => h matches hir::Expr::Assign(y) && expr_lowered(*x.target, *y.lhs, d) && expr_lowered(
            *x.value,
            *y.rhs,
            d,
        ),
        ast::Expr::AssignOp(o) => match h {
            hir::Expr::Assign(y) => expr_lowered(*o.target, *y.lhs, d) && y.rhs.span == span && match y.rhs.node {
                hir::Expr::Binary(b) => b.op == spec_lower_assign_op(o.op.node) && expr_lowered(*o.target, *b.lhs, d)
                    && expr_lowered(*o.value, *b.rhs, d),
                _ => false,
            },
            _ => false,
        },
        ast::Expr::FieldAccess(f) => h matches hir::Expr::Field(g) && expr_lowered(*f.target, *g.base, d)
            && ident_lowered(f.field, g.field),
        ast::Expr::Index(x) => h matches hir::Expr::Index(y) && expr_lowered(*x.target, *y.base, d) && expr_lowered(
            *x.index,
            *y.index,
            d,
        ),
        ast::Expr::Path(p) => h matches hir::Expr::Path(q) && path_lowered(p.path, q, d),
        ast::Expr::AddrOf(x) => h matches hir::Expr::AddrOf(e) && expr_lowered(*x.expr, *e, d),
        ast::Expr::Break(b) => h matches hir::Expr::Break(v) && opt_expr_lowered(b.expr, v, d),
        ast::Expr::Continue => h is Continue,
        ast::Expr::Literal(l) => h matches hir::Expr::Literal(x) && literal_lowers_to(l, x),
        ast::Expr::Binary(b) => h matches hir::Expr::Binary(x) && x.op == spec_lower_bin_op(b.operator.node)
            && expr_lowered(*b.left, *x.lhs, d) && expr_lowered(*b.right, *x.rhs, d),
        ast::Expr::Unary(u) => h matches hir::Expr::Unary(x) && x.op == spec_lower_un_op(u.operator.node)
            && expr_lowered(*u.operand, *x.operand, d),
        ast::Expr::If(i) => h matches hir::Expr::If(x) && expr_lowered(*i.condition, *x.condition, d)
            && block_lowered(*i.then_branch, x.then_branch, d) && match (i.else_branch, x.else_branch) {
            (Some(p), Some(q)) => block_lowered(*p, q, d),
            (None, None) => true,
            _ => false,
        },
        ast::Expr::Block(b) => h matches hir::Expr::Block(x) && x.span == span && stmts_lowered(
            b.stmts@,
            x.node.stmts@,
            d,
        ),
        ast::Expr::Match(m) => h matches hir::Expr::Match(x) && expr_lowered(*m.value, *x.scrutinee, d) && arms_lowered(
            m.arms@,
            x.arms@,
            d,
        ),
        ast::Expr::Let(l) => h matches hir::Expr::Let(x) && pattern_lowered(l.pattern, x.pattern, d) && expr_lowered(
            *l.value,
            *x.init,
            d,
        ),
        ast::Expr::Paren(inner) => expr_kind_lowered(inner.node, inner.span, h, d),
        ast::Expr::Error => h is Error,
    }
}

pub open spec fn expr_field_lowered(a: AstNode<ast::StructExprField>, h: HirNode<hir::StructExprField>, d: &DefinitionMap) -> bool
    decreases a,
{
    &&& h.span == a.span
    &&& ident_lowered(a.node.ident, h.node.ident)
    &&& expr_lowered(*a.node.expr, *h.node.expr, d)
}

pub open spec fn arm_lowered(a: AstNode<ast::MatchArm>, h: HirNode<hir::MatchArm>, d: &DefinitionMap) -> bool
    decreases a,
{
    &&& h.span == a.span
    &&& pattern_lowered(a.node.pattern, h.node.pattern, d)
    &&& expr_lowered(*a.node.body, *h.node.body, d)
}

pub open spec fn block_lowered(a: AstNode<ast::BlockExpr>, h: HirNode<hir::BlockExpr>, d: &DefinitionMap) -> bool
    decreases a,
{
    h.span == a.span && stmts_lowered(a.node.stmts@, h.node.stmts@, d)
}

/// The statements but the `use` items, each lowered, in order.
pub open spec fn stmts_lowered(a: Seq<AstNode<ast::Stmt>>, h: Seq<HirNode<hir::Stmt>>, d: &DefinitionMap) -> bool
    decreases a,
{
    if a.len() == 0 {
        h.len() == 0
    } else if is_use_stmt(a.last()) {
        stmts_lowered(a.drop_last(), h, d)
    } else {
        h.len() > 0 && stmts_lowered(a.drop_last(), h.drop_last(), d) && stmt_lowered(a.last(), h.last(), d)
    }
}

pub open spec fn stmt_lowered(a: AstNode<ast::Stmt>, h: HirNode<hir::Stmt>, d: &DefinitionMap) -> bool
    decreases a,
{
    &&& h.span == a.span
    &&& match a.node {
        ast::Stmt::Item(i) => h.node matches hir::Stmt::Item(j) && item_lowered(i, j, d),
        ast::Stmt::Let(l) => h.node matches hir::Stmt::Let(m) && pattern_lowered(l.pat, m.pattern, d)
            && opt_ty_lowered(l.type_annotation, m.ty, d) && opt_expr_lowered(l.expr, m.expr, d),
        ast::Stmt::Expr(e) => h.node matches hir::Stmt::Expr(f) && expr_lowered(e, f, d),
        ast::Stmt::Semi(e) => h.node matches hir::Stmt::Semi(f) && expr_lowered(e, f, d),
        ast::Stmt::Error => false,
    }
}

pub open spec fn pattern_lowered(a: AstNode<ast::Pattern>, h: HirNode<hir::Pattern>, d: &DefinitionMap) -> bool
    decreases a,
{
    h.span == a.span && pattern_kind_lowered(a.node, h.node, d)
}

/// What a pattern becomes: parentheses disappear, the rest keeps its form.
pub open spec fn pattern_kind_lowered(a: ast::Pattern, h: hir::Pattern, d: &DefinitionMap) -> bool
    decreases a,
{
    match a {
        ast::Pattern::Wildcard => h is Wildcard,
        ast::Pattern::Or(ps) => h matches hir::Pattern::Or(qs) && patterns_lowered(ps@, qs@, d),
        ast::Pattern::Path(p) => h matches hir::Pattern::Path(q) && path_lowered(p, q, d),
        ast::Pattern::Struct(p, fs) => h matches hir::Pattern::Struct(q, gs) && path_lowered(p, q, d)
            && pattern_fields_lowered(fs@, gs@, d),
        ast::Pattern::TupleStruct(p, ps) => h matches hir::Pattern::TupleStruct(q, qs) && path_lowered(p, q, d)
            && patterns_lowered(ps@, qs@, d),
        ast::Pattern::Tuple(ps) => h matches hir::Pattern::Tuple(qs) && patterns_lowered(ps@, qs@, d),
        ast::Pattern::Expr(e) => h matches hir::Pattern::Expr(f) && expr_lowered(*e, *f, d),
        ast::Pattern::Paren(inner) => pattern_kind_lowered(inner.node, h, d),
    }
}

pub open spec fn pattern_field_lowered(a: AstNode<ast::PatternStructField>, h: HirNode<hir::PatternStructField>, d: &DefinitionMap) -> bool
    decreases a,
{
    &&& h.span == a.span
    &&& ident_lowered(a.node.ident, h.node.ident)
    &&& pattern_lowered(a.node.pattern, h.node.pattern, d)
}

pub open spec fn fn_sig_lowered(a: AstNode<ast::FnSig>, h: HirNode<hir::FnSig>, d: &DefinitionMap) -> bool
    decreases a,
{
    &&& h.span == a.span
    &&& ident_lowered(a.node.ident, h.node.ident)
    &&& generics_lowered(a.node.generics@, h.node.generics@, d)
    &&& params_lowered(a.node.params@, h.node.params@, d)
    &&& opt_ty_lowered(a.node.return_ty, h.node.return_ty, d)
}

pub open spec fn param_lowered(a: AstNode<ast::Param>, h: HirNode<hir::Param>, d: &DefinitionMap) -> bool
    decreases a,
{
    &&& h.span == a.span
    &&& pattern_lowered(a.node.pattern, h.node.pattern, d)
    &&& ty_lowered(a.node.type_annotation, h.node.type_annotation, d)
}

pub open spec fn generic_param_lowered(a: AstNode<ast::GenericParam>, h: HirNode<hir::GenericParam>, d: &DefinitionMap) -> bool
    decreases a,
{
    &&& h.span == a.span
    &&& h.node.def_id == def_of_node(d, a.ast_id)
    &&& ident_lowered(a.node.ident, h.node.ident)
    &&& paths_lowered(a.node.bounds@, h.node.bounds@, d)
    &&& match (a.node.kind, h.node.kind) {
        (ast::GenericParamKind::Const(t), hir::GenericParamKind::Const(u)) => ty_lowered(t, u, d),
        (ast::GenericParamKind::Type, hir::GenericParamKind::Type) => true,
        _ => false,
    }
}

pub open spec fn variant_data_lowered(a: AstNode<ast::VariantData>, h: HirNode<hir::VariantData>, d: &DefinitionMap) -> bool
    decreases a,
{
    &&& h.span == a.span
    &&& match a.node {
        ast::VariantData::Unit => h.node is Unit,
        ast::VariantData::Struct { fields } => h.node matches hir::VariantData::Struct { fields: g }
            && struct_fields_lowered(fields@, g@, d),
        ast::VariantData::Tuple { types } => h.node matches hir::VariantData::Tuple { types: u } && tys_lowered(
            types@,
            u@,
            d,
        ),
    }
}

pub open spec fn struct_field_lowered(a: AstNode<ast::StructFieldDef>, h: HirNode<hir::StructField>, d: &DefinitionMap) -> bool
    decreases a,
{
    &&& h.span == a.span
    &&& h.node.def_id == def_of_node(d, a.ast_id)
    &&& ident_lowered(a.node.ident, h.node.ident)
    &&& ty_lowered(a.node.type_annotation, h.node.ty, d)
}

pub open spec fn variant_lowered(a: AstNode<ast::EnumVariant>, h: HirNode<hir::EnumVariant>, d: &DefinitionMap) -> bool
    decreases a,
{
    &&& h.span == a.span
    &&& h.node.def_id == def_of_node(d, a.ast_id)
    &&& ident_lowered(a.node.ident, h.node.ident)
    &&& variant_data_lowered(a.node.data, h.node.data, d)
}

pub open spec fn assoc_item_lowered(a: AstNode<ast::AssociatedItem>, h: HirNode<hir::AssociatedItem>, d: &DefinitionMap) -> bool
    decreases a,
{
    &&& h.span == a.span
    &&& match a.node {
        ast::AssociatedItem::Fn(sig, body) => h.node matches hir::AssociatedItem::Fn(s, b) && fn_sig_lowered(sig, s, d)
            && opt_block_lowered(body, b, d),
        ast::AssociatedItem::Type(ta) => h.node matches hir::AssociatedItem::Type(tb) && tb.span == ta.span
            && tb.node.def_id == def_of_node(d, a.ast_id) && ident_lowered(ta.node.ident, tb.node.ident)
            && generics_lowered(ta.node.generics@, tb.node.generics@, d) && opt_ty_lowered(ta.node.ty, tb.node.ty, d),
    }
}

pub open spec fn item_lowered(a: AstNode<ast::Item>, h: HirNode<hir::Item>, d: &DefinitionMap) -> bool
    decreases a,
{
    &&& h.span == a.span
    &&& match a.node {
        ast::Item::Fn(f) => h.node matches hir::Item::Fn(g) && g.def_id == def_of_node(d, a.ast_id)
            && fn_sig_lowered(f.sig, g.sig, d) && block_lowered(f.body, g.body, d),
        ast::Item::Struct(s) => h.node matches hir::Item::Struct(t) && t.def_id == def_of_node(d, a.ast_id)
            && ident_lowered(s.ident, t.ident) && generics_lowered(s.generics@, t.generics@, d)
            && variant_data_lowered(s.data, t.data, d),
        ast::Item::Enum(e) => h.node matches hir::Item::Enum(f) && f.def_id == def_of_node(d, a.ast_id)
            && ident_lowered(e.ident, f.ident) && generics_lowered(e.generics@, f.generics@, d)
            && variants_lowered(e.variants@, f.variants@, d),
        ast::Item::Trait(t) => h.node matches hir::Item::Trait(u) && u.def_id == def_of_node(d, a.ast_id)
            && ident_lowered(t.ident, u.ident) && generics_lowered(t.generics@, u.generics@, d)
            && assoc_items_lowered(t.items@, u.items@, d),
        ast::Item::Mod(m) => h.node matches hir::Item::Mod(n) && n.def_id == def_of_node(d, a.ast_id)
            && ident_lowered(m.ident, n.ident) && items_lowered(m.items@, n.items@, d),
        ast::Item::Impl(i) => h.node matches hir::Item::Impl(j) && j.def_id == def_of_node(d, a.ast_id)
            && generics_lowered(i.generics@, j.generics@, d) && ty_lowered(i.self_ty, j.self_ty, d) && match (
            i.for_trait,
            j.of_trait,
        ) {
            (Some(p), Some(q)) => path_lowered(p, q, d),
            (None, None) => true,
            _ => false,
        } && assoc_items_lowered(i.items@, j.items@, d),
        ast::Item::ExternFn(e) => h.node matches hir::Item::ExternFn(f) && f.def_id == def_of_node(d, a.ast_id)
            && fn_sig_lowered(e.sig, f.sig, d),
        ast::Item::Const(c) => h.node matches hir::Item::Const(k) && k.def_id == def_of_node(d, a.ast_id)
            && ident_lowered(c.ident, k.ident) && generics_lowered(c.generics@, k.generics@, d) && opt_ty_lowered(
            c.type_annotation,
            k.ty,
            d,
        ) && expr_lowered(c.expr, k.expr, d),
        ast::Item::TyAlias(t) => h.node matches hir::Item::TyAlias(u) && u.def_id == def_of_node(d, a.ast_id)
            && ident_lowered(t.ident, u.ident) && generics_lowered(t.generics@, u.generics@, d) && opt_ty_lowered(
            t.ty,
            u.ty,
            d,
        ),
        ast::Item::Use(_) | ast::Item::Error => false,
    }
}

/// The items of a crate but its `use` items, each lowered, in order.
pub open spec fn crate_items_lowered(a: Seq<AstNode<ast::Item>>, h: Seq<HirNode<hir::Item>>, d: &DefinitionMap) -> bool {
    items_lowered(a, h, d)
}

pub open spec fn exprs_lowered(a: Seq<AstNode<ast::Expr>>, h: Seq<HirNode<hir::Expr>>, d: &DefinitionMap) -> bool
    decreases a,
{
    if a.len() == 0 {
        h.len() == 0
    } else {
        h.len() > 0 && exprs_lowered(a.drop_last(), h.drop_last(), d) && expr_lowered(a.last(), h.last(), d)
    }
}

pub open spec fn tys_lowered(a: Seq<AstNode<ast::Ty>>, h: Seq<HirNode<hir::Ty>>, d: &DefinitionMap) -> bool
    decreases a,
{
    if a.len() == 0 {
        h.len() == 0
    } else {
        h.len() > 0 && tys_lowered(a.drop_last(), h.drop_last(), d) && ty_lowered(a.last(), h.last(), d)
    }
}

pub open spec fn patterns_lowered(a: Seq<AstNode<ast::Pattern>>, h: Seq<HirNode<hir::Pattern>>, d: &DefinitionMap) -> bool
    decreases a,
{
    if a.len() == 0 {
        h.len() == 0
    } else {
        h.len() > 0 && patterns_lowered(a.drop_last(), h.drop_last(), d) && pattern_lowered(a.last(), h.last(), d)
    }
}

pub open spec fn pattern_fields_lowered(a: Seq<AstNode<ast::PatternStructField>>, h: Seq<HirNode<hir::PatternStructField>>, d: &DefinitionMap) -> bool
    decreases a,
{
    if a.len() == 0 {
        h.len() == 0
    } else {
        h.len() > 0 && pattern_fields_lowered(a.drop_last(), h.drop_last(), d) && pattern_field_lowered(a.last(), h.last(), d)
    }
}

pub open spec fn segments_lowered(a: Seq<AstNode<ast::PathSegment>>, h: Seq<HirNode<hir::PathSegment>>, d: &DefinitionMap) -> bool
    decreases a,
{
    if a.len() == 0 {
        h.len() == 0
    } else {
        h.len() > 0 && segments_lowered(a.drop_last(), h.drop_last(), d) && segment_lowered(a.last(), h.last(), d)
    }
}

pub open spec fn args_lowered(a: Seq<AstNode<ast::GenericArg>>, h: Seq<HirNode<hir::GenericArg>>, d: &DefinitionMap) -> bool
    decreases a,
{
    if a.len() == 0 {
        h.len() == 0
    } else {
        h.len() > 0 && args_lowered(a.drop_last(), h.drop_last(), d) && arg_lowered(a.last(), h.last(), d)
    }
}

pub open spec fn paths_lowered(a: Seq<AstNode<ast::Path>>, h: Seq<HirNode<hir::Path>>, d: &DefinitionMap) -> bool
    decreases a,
{
    if a.len() == 0 {
        h.len() == 0
    } else {
        h.len() > 0 && paths_lowered(a.drop_last(), h.drop_last(), d) && path_lowered(a.last(), h.last(), d)
    }
}

pub open spec fn generics_lowered(a: Seq<AstNode<ast::GenericParam>>, h: Seq<HirNode<hir::GenericParam>>, d: &DefinitionMap) -> bool
    decreases a,
{
    if a.len() == 0 {
        h.len() == 0
    } else {
        h.len() > 0 && generics_lowered(a.drop_last(), h.drop_last(), d) && generic_param_lowered(a.last(), h.last(), d)
    }
}

pub open spec fn params_lowered(a: Seq<AstNode<ast::Param>>, h: Seq<HirNode<hir::Param>>, d: &DefinitionMap) -> bool
    decreases a,
{
    if a.len() == 0 {
        h.len() == 0
    } else {
        h.len() > 0 && params_lowered(a.drop_last(), h.drop_last(), d) && param_lowered(a.last(), h.last(), d)
    }
}

pub open spec fn struct_fields_lowered(a: Seq<AstNode<ast::StructFieldDef>>, h: Seq<HirNode<hir::StructField>>, d: &DefinitionMap) -> bool
    decreases a,
{
    if a.len() == 0 {
        h.len() == 0
    } else {
        h.len() > 0 && struct_fields_lowered(a.drop_last(), h.drop_last(), d) && struct_field_lowered(a.last(), h.last(), d)
    }
}

pub open spec fn variants_lowered(a: Seq<AstNode<ast::EnumVariant>>, h: Seq<HirNode<hir::EnumVariant>>, d: &DefinitionMap) -> bool
    decreases a,
{
    if a.len() == 0 {
        h.len() == 0
    } else {
        h.len() > 0 && variants_lowered(a.drop_last(), h.drop_last(), d) && variant_lowered(a.last(), h.last(), d)
    }
}

pub open spec fn assoc_items_lowered(a: Seq<AstNode<ast::AssociatedItem>>, h: Seq<HirNode<hir::AssociatedItem>>, d: &DefinitionMap) -> bool
    decreases a,
{
    if a.len() == 0 {
        h.len() == 0
    } else {
        h.len() > 0 && assoc_items_lowered(a.drop_last(), h.drop_last(), d) && assoc_item_lowered(a.last(), h.last(), d)
    }
}

/// The items but the `use` items, each lowered, in order.
pub open spec fn items_lowered(a: Seq<AstNode<ast::Item>>, h: Seq<HirNode<hir::Item>>, d: &DefinitionMap) -> bool
    decreases a,
{
    if a.len() == 0 {
        h.len() == 0
    } else if is_use_item(a.last()) {
        items_lowered(a.drop_last(), h, d)
    } else {
        h.len() > 0 && items_lowered(a.drop_last(), h.drop_last(), d) && item_lowered(a.last(), h.last(), d)
    }
}

pub open spec fn arms_lowered(a: Seq<AstNode<ast::MatchArm>>, h: Seq<HirNode<hir::MatchArm>>, d: &DefinitionMap) -> bool
    decreases a,
{
    if a.len() == 0 {
        h.len() == 0
    } else {
        h.len() > 0 && arms_lowered(a.drop_last(), h.drop_last(), d) && arm_lowered(a.last(), h.last(), d)
    }
}

pub open spec fn expr_fields_lowered(a: Seq<AstNode<ast::StructExprField>>, h: Seq<HirNode<hir::StructExprField>>, d: &DefinitionMap) -> bool
    decreases a,
{
    if a.len() == 0 {
        h.len() == 0
    } else {
        h.len() > 0 && expr_fields_lowered(a.drop_last(), h.drop_last(), d) && expr_field_lowered(a.last(), h.last(), d)
    }
}


/// A `while` loop lowers to a `loop` whose body is a single statement: an
/// `if` on the lowered condition, with the lowered body as its branch and,
/// as its `else`, a block that breaks out of the loop. Every node that
/// lowering adds (the blocks, the statements, the `if` and the `break`)
/// takes the span of the `while` loop.
pub proof fn law_while_lowers_to_loop(a: AstNode<ast::Expr>, h: HirNode<hir::Expr>, d: &DefinitionMap)
    requires
        expr_lowered(a, h, d),
        a.node is While,
    ensures
        h.span == a.span,
        h.node matches hir::Expr::Loop(l) && l.body.span == a.span && l.body.node.stmts@.len() == 1
            && l.body.node.stmts@[0].span == a.span && (l.body.node.stmts@[0].node matches hir::Stmt::Expr(ie)
            && ie.span == a.span && (ie.node matches hir::Expr::If(i) && expr_lowered(
            *a.node->While_0.condition,
            *i.condition,
            d,
        ) && block_lowered(*a.node->While_0.body, i.then_branch, d) && (i.else_branch matches Some(eb)
            && is_break_block(eb, a.span)))),
{
}

} // verus!
