use crate::parser::ops::{assign_op_symbol, bin_op_symbol, un_op_symbol};
use crate::ast_lowerer::hir;
use crate::ast_lowerer::hir::{HirId, HirNode};
use crate::ast_lowerer::lowering::{
    arg_lowered, args_lowered, arm_lowered, arms_lowered, assoc_item_lowered, assoc_items_lowered,
    block_lowered, crate_items_lowered, expr_field_lowered, expr_fields_lowered, expr_lowered, exprs_lowered,
    fn_sig_lowered, generic_param_lowered, generics_lowered, ident_lowered, is_break_block, item_lowered,
    items_lowered, opt_expr_lowered, param_lowered, params_lowered, path_lowered, paths_lowered,
    pattern_field_lowered, pattern_fields_lowered, pattern_lowered, patterns_lowered, segment_lowered,
    segments_lowered, segments_split_lowered, stmt_lowered, stmts_lowered, struct_field_lowered, struct_fields_lowered, ty_lowered,
    tys_lowered, variant_data_lowered, variant_lowered, variants_lowered,
};
use crate::ast_lowerer::lowerable::{
    has_def, is_use_item, is_use_stmt, lowerable_assoc_item, lowerable_block, lowerable_crate,
    lowerable_enum_variant, lowerable_expr, lowerable_exprs, lowerable_fn_sig, lowerable_generic_arg,
    lowerable_generic_param, lowerable_generics, lowerable_item, lowerable_match_arm, lowerable_opt_expr,
    lowerable_param, lowerable_path, lowerable_pattern, lowerable_pattern_field, lowerable_segment,
    lowerable_stmt, lowerable_struct_expr_field, lowerable_struct_field, lowerable_ty,
    lowerable_variant_data, path_resolved,
};
use crate::parser::ast;
use crate::parser::ast::{AstId, AstNode, Ident};
use crate::resolver::defs::{DefId, DefinitionMap};
use crate::resolver::ribs::Res;
use crate::span::Span;
use vstd::prelude::*;

verus! {

/// The operator a binary operator of the syntax tree lowers to.
pub open spec fn spec_lower_bin_op(op: ast::BinOp) -> hir::BinOp {
    match op {
        ast::BinOp::Add => hir::BinOp::Add,
        ast::BinOp::Sub => hir::BinOp::Sub,
        ast::BinOp::Mul => hir::BinOp::Mul,
        ast::BinOp::Div => hir::BinOp::Div,
        ast::BinOp::Rem => hir::BinOp::Rem,
        ast::BinOp::And => hir::BinOp::And,
        ast::BinOp::Or => hir::BinOp::Or,
        ast::BinOp::EqEq => hir::BinOp::Eq,
        ast::BinOp::Less => hir::BinOp::Lt,
        ast::BinOp::LessEq => hir::BinOp::Le,
        ast::BinOp::Greater => hir::BinOp::Gt,
        ast::BinOp::GreaterEq => hir::BinOp::Ge,
        ast::BinOp::NotEq => hir::BinOp::Ne,
    }
}

pub open spec fn spec_lower_un_op(op: ast::UnOp) -> hir::UnOp {
    match op {
        ast::UnOp::Deref => hir::UnOp::Deref,
        ast::UnOp::Not => hir::UnOp::Not,
        ast::UnOp::Neg => hir::UnOp::Neg,
    }
}

/// The binary operator that a compound assignment applies.
pub open spec fn spec_lower_assign_op(op: ast::AssignOp) -> hir::BinOp {
    match op {
        ast::AssignOp::AddAssign => hir::BinOp::Add,
        ast::AssignOp::SubAssign => hir::BinOp::Sub,
        ast::AssignOp::MulAssign => hir::BinOp::Mul,
        ast::AssignOp::DivAssign => hir::BinOp::Div,
        ast::AssignOp::RemAssign => hir::BinOp::Rem,
    }
}

/// The lowered literal is the same literal.
pub open spec fn literal_lowers_to(l: ast::LiteralExpr, h: hir::Literal) -> bool {
    match l {
        ast::LiteralExpr::Bool(b) => h == hir::Literal::Bool(b),
        ast::LiteralExpr::I32(i) => h == hir::Literal::I32(i),
        ast::LiteralExpr::U32(u) => h == hir::Literal::U32(u),
        ast::LiteralExpr::Float(s) => h matches hir::Literal::Float(t) && t@ == s@,
        ast::LiteralExpr::Str(s) => h matches hir::Literal::Str(t) && t@ == s@,
        ast::LiteralExpr::Unit => h == hir::Literal::Unit,
    }
}

/// How many of the items are no `use` items.
pub open spec fn count_non_use(items: Seq<AstNode<ast::Item>>) -> nat
    decreases items.len(),
{
    if items.len() == 0 {
        0
    } else {
        count_non_use(items.drop_last()) + if is_use_item(items.last()) {
            0nat
        } else {
            1nat
        }
    }
}

/// Lowers the syntax tree of a crate, whose names are resolved, to the
/// lowered tree. Every lowered node gets the next id of a counter.
pub struct AstLowerer<'ast> {
    ast: &'ast ast::Crate,
    defs: &'ast DefinitionMap,
    next_hir_id: usize,
}

impl<'ast> AstLowerer<'ast> {
    pub closed spec fn spec_ast(&self) -> &'ast ast::Crate {
        self.ast
    }

    pub closed spec fn spec_defs(&self) -> &'ast DefinitionMap {
        self.defs
    }

    pub closed spec fn spec_next_hir_id(&self) -> usize {
        self.next_hir_id
    }

    pub fn new(defs: &'ast DefinitionMap, ast: &'ast ast::Crate) -> (l: AstLowerer<'ast>)
        ensures
            l.spec_ast() == ast,
            l.spec_defs() == defs,
            l.spec_next_hir_id() == 0,
    {
        AstLowerer { ast, defs, next_hir_id: 0 }
    }

    /// Lowers every item of the crate but its `use` items.
    pub fn lower(&mut self) -> (k: hir::Crate)
        requires
            lowerable_crate(old(self).spec_ast(), old(self).spec_defs()),
        ensures
            final(self).spec_ast() == old(self).spec_ast(),
            final(self).spec_defs() == old(self).spec_defs(),
            k.span == old(self).spec_ast().span,
            k.items.len() == count_non_use(old(self).spec_ast().items@),
            crate_items_lowered(old(self).spec_ast().items@, k.items@, old(self).spec_defs()),
    {
        let krate = self.ast;
        let items = self.lower_items(&krate.items);
        hir::Crate { items, span: krate.span }
    }

    fn fresh_hir_id(&mut self) -> (id: HirId)
        ensures
            id == HirId(old(self).next_hir_id),
            final(self).ast == old(self).ast,
            final(self).defs == old(self).defs,
    {
        let id = self.next_hir_id;
        self.next_hir_id = self.next_hir_id.wrapping_add(1);
        HirId(id)
    }

    fn mk<T>(&mut self, node: T, span: Span) -> (n: HirNode<T>)
        ensures
            n.node == node,
            n.span == span,
            n.hir_id == HirId(old(self).next_hir_id),
            final(self).ast == old(self).ast,
            final(self).defs == old(self).defs,
    {
        let id = self.fresh_hir_id();
        HirNode::with_id(node, span, id)
    }

    /// The definition of a node that defines something.
    fn def_of(&self, id: AstId) -> (d: DefId)
        requires
            has_def(self.defs, id),
        ensures
            d == self.defs.ast_to_def_view()[id.0],
    {
        match self.defs.get_def_from_ast(id) {
            Some(d) => *d,
            None => {
                proof {
                    assert(false);
                }
                DefId(0)
            },
        }
    }

    fn lower_ident(&mut self, ident: &AstNode<Ident>) -> (r: HirNode<Ident>)
        ensures
            r.node.name@ == ident.node.name@,
            r.span == ident.span,
            final(self).ast == old(self).ast,
            final(self).defs == old(self).defs,
            ident_lowered(*ident, r),
    {
        let name = Ident { name: ident.node.name.clone() };
        self.mk(name, ident.span)
    }

    pub fn lower_literal(&self, lit: &ast::LiteralExpr) -> (r: hir::Literal)
        ensures
            literal_lowers_to(*lit, r),
    {
        match lit {
            ast::LiteralExpr::Bool(b) => hir::Literal::Bool(*b),
            ast::LiteralExpr::I32(i) => hir::Literal::I32(*i),
            ast::LiteralExpr::U32(u) => hir::Literal::U32(*u),
            ast::LiteralExpr::Float(f) => hir::Literal::Float(f.clone()),
            ast::LiteralExpr::Str(s) => hir::Literal::Str(s.clone()),
            ast::LiteralExpr::Unit => hir::Literal::Unit,
        }
    }

    pub fn lower_bin_op(&self, op: &ast::BinOp) -> (r: hir::BinOp)
        ensures
            r == spec_lower_bin_op(*op),
    {
        match op {
            ast::BinOp::Add => hir::BinOp::Add,
            ast::BinOp::Sub => hir::BinOp::Sub,
            ast::BinOp::Mul => hir::BinOp::Mul,
            ast::BinOp::Div => hir::BinOp::Div,
            ast::BinOp::Rem => hir::BinOp::Rem,
            ast::BinOp::And => hir::BinOp::And,
            ast::BinOp::Or => hir::BinOp::Or,
            ast::BinOp::EqEq => hir::BinOp::Eq,
            ast::BinOp::Less => hir::BinOp::Lt,
            ast::BinOp::LessEq => hir::BinOp::Le,
            ast::BinOp::Greater => hir::BinOp::Gt,
            ast::BinOp::GreaterEq => hir::BinOp::Ge,
            ast::BinOp::NotEq => hir::BinOp::Ne,
        }
    }

    pub fn lower_un_op(&self, op: &ast::UnOp) -> (r: hir::UnOp)
        ensures
            r == spec_lower_un_op(*op),
    {
        match op {
            ast::UnOp::Deref => hir::UnOp::Deref,
            ast::UnOp::Not => hir::UnOp::Not,
            ast::UnOp::Neg => hir::UnOp::Neg,
        }
    }

    pub fn lower_assign_op(&self, op: &ast::AssignOp) -> (r: hir::BinOp)
        ensures
            r == spec_lower_assign_op(*op),
    {
        match op {
            ast::AssignOp::AddAssign => hir::BinOp::Add,
            ast::AssignOp::SubAssign => hir::BinOp::Sub,
            ast::AssignOp::MulAssign => hir::BinOp::Mul,
            ast::AssignOp::DivAssign => hir::BinOp::Div,
            ast::AssignOp::RemAssign => hir::BinOp::Rem,
        }
    }

    fn lower_item(&mut self, item: &AstNode<ast::Item>) -> (r: HirNode<hir::Item>)
        requires
            lowerable_item(*item, old(self).defs),
        ensures
            r.span == item.span,
            final(self).ast == old(self).ast,
            final(self).defs == old(self).defs,
            item_lowered(*item, r, old(self).defs),
        decreases item,
    {
        let hir_item = match &item.node {
            ast::Item::Fn(fn_item) => {
                let def_id = self.def_of(item.ast_id);
                let sig = self.lower_fn_sig(&fn_item.sig);
                let body = self.lower_block_expr(&fn_item.body);
                hir::Item::Fn(hir::FnDecl { def_id, sig, body })
            },
            ast::Item::Struct(struct_item) => {
                let def_id = self.def_of(item.ast_id);
                let ident = self.lower_ident(&struct_item.ident);
                let generics = self.lower_generic_params(&struct_item.generics);
                let data = self.lower_variant_data(&struct_item.data);
                hir::Item::Struct(hir::StructDecl { def_id, ident, generics, data })
            },
            ast::Item::Enum(enum_item) => {
                let def_id = self.def_of(item.ast_id);
                let ident = self.lower_ident(&enum_item.ident);
                let generics = self.lower_generic_params(&enum_item.generics);
                let variants = self.lower_enum_variants(&enum_item.variants);
                hir::Item::Enum(hir::EnumDecl { def_id, ident, generics, variants })
            },
            ast::Item::Trait(trait_item) => {
                let def_id = self.def_of(item.ast_id);
                let ident = self.lower_ident(&trait_item.ident);
                let generics = self.lower_generic_params(&trait_item.generics);
                let items = self.lower_associated_items(&trait_item.items);
                hir::Item::Trait(hir::TraitDecl { def_id, ident, generics, items })
            },
            ast::Item::Mod(mod_item) => {
                let def_id = self.def_of(item.ast_id);
                let ident = self.lower_ident(&mod_item.ident);
                let items = self.lower_items(&mod_item.items);
                hir::Item::Mod(hir::ModDecl { def_id, ident, items })
            },
            ast::Item::Impl(impl_item) => {
                let def_id = self.def_of(item.ast_id);
                let generics = self.lower_generic_params(&impl_item.generics);
                let self_ty = self.lower_type(&impl_item.self_ty);
                let of_trait = match &impl_item.for_trait {
                    Some(t) => Some(self.lower_path(t)),
                    None => None,
                };
                let items = self.lower_associated_items(&impl_item.items);
                hir::Item::Impl(hir::ImplDecl { def_id, generics, self_ty, of_trait, items })
            },
            ast::Item::ExternFn(extern_fn_item) => {
                let def_id = self.def_of(item.ast_id);
                let sig = self.lower_fn_sig(&extern_fn_item.sig);
                hir::Item::ExternFn(hir::ExternFnDecl { def_id, sig })
            },
            ast::Item::Const(const_item) => {
                let def_id = self.def_of(item.ast_id);
                let ident = self.lower_ident(&const_item.ident);
                let generics = self.lower_generic_params(&const_item.generics);
                let ty = match &const_item.type_annotation {
                    Some(t) => Some(self.lower_type(t)),
                    None => None,
                };
                let expr = self.lower_expr(&const_item.expr);
                hir::Item::Const(hir::ConstDecl { def_id, ident, generics, ty, expr })
            },
            ast::Item::TyAlias(ty_alias_item) => {
                let def_id = self.def_of(item.ast_id);
                let ident = self.lower_ident(&ty_alias_item.ident);
                let generics = self.lower_generic_params(&ty_alias_item.generics);
                let ty = match &ty_alias_item.ty {
                    Some(t) => Some(self.lower_type(t)),
                    None => None,
                };
                hir::Item::TyAlias(hir::TyAlias { def_id, ident, generics, ty })
            },
            ast::Item::Use(_) | ast::Item::Error => {
                proof {
                    assert(false);
                }
                let ident = self.lower_ident_err(item.span);
                hir::Item::Mod(hir::ModDecl { def_id: DefId(0), ident, items: Vec::new() })
            },
        };
        self.mk(hir_item, item.span)
    }

    fn lower_ident_err(&mut self, span: Span) -> (r: HirNode<Ident>)
        ensures
            final(self).ast == old(self).ast,
            final(self).defs == old(self).defs,
    {
        self.mk(Ident::err(), span)
    }

    /// Lowers the items but the `use` items, in order.
    fn lower_items(&mut self, v: &Vec<AstNode<ast::Item>>) -> (r: Vec<HirNode<hir::Item>>)
        requires
            forall|i: int| 0 <= i < v.len() ==> is_use_item(#[trigger] v@[i]) || lowerable_item(v@[i], old(self).defs),
        ensures
            r.len() == count_non_use(v@),
            final(self).ast == old(self).ast,
            final(self).defs == old(self).defs,
            items_lowered(v@, r@, old(self).defs),
        decreases v,
    {
        let mut r: Vec<HirNode<hir::Item>> = Vec::new();
        let mut i: usize = 0;
        while i < v.len()
            invariant
                i <= v.len(),
                r.len() == count_non_use(v@.take(i as int)),
                items_lowered(v@.take(i as int), r@, self.defs),
                self.ast == old(self).ast,
                self.defs == old(self).defs,
                forall|j: int| 0 <= j < v.len() ==> is_use_item(#[trigger] v@[j]) || lowerable_item(v@[j], self.defs),
            decreases v.len() - i,
        {
            proof {
                assert(decreases_to!(*v => v[i as int]));
                assert(v@.take(i + 1).drop_last() =~= v@.take(i as int));
            }
            let is_use = match &v[i].node {
                ast::Item::Use(_) => true,
                _ => false,
            };
            let ghost prev = r@;
            if !is_use {
                let x = self.lower_item(&v[i]);
                r.push(x);
                proof {
                    assert(r@.drop_last() =~= prev);
                }
            }
            i = i + 1;
        }
        assert(v@.take(v.len() as int) =~= v@);
        r
    }

    fn lower_fn_sig(&mut self, sig: &AstNode<ast::FnSig>) -> (r: HirNode<hir::FnSig>)
        requires
            lowerable_fn_sig(*sig, old(self).defs),
        ensures
            r.span == sig.span,
            r.node.params.len() == sig.node.params.len(),
            final(self).ast == old(self).ast,
            final(self).defs == old(self).defs,
            fn_sig_lowered(*sig, r, old(self).defs),
        decreases sig,
    {
        let ident = self.lower_ident(&sig.node.ident);
        let generics = self.lower_generic_params(&sig.node.generics);
        let params = self.lower_params(&sig.node.params);
        let return_ty = match &sig.node.return_ty {
            Some(t) => Some(self.lower_type(t)),
            None => None,
        };
        self.mk(hir::FnSig { ident, generics, params, return_ty }, sig.span)
    }

    fn lower_params(&mut self, v: &Vec<AstNode<ast::Param>>) -> (r: Vec<HirNode<hir::Param>>)
        requires
            forall|i: int| 0 <= i < v.len() ==> lowerable_param(#[trigger] v@[i], old(self).defs),
        ensures
            r.len() == v.len(),
            final(self).ast == old(self).ast,
            final(self).defs == old(self).defs,
            params_lowered(v@, r@, old(self).defs),
        decreases v,
    {
        let mut r: Vec<HirNode<hir::Param>> = Vec::new();
        let mut i: usize = 0;
        while i < v.len()
            invariant
                i <= v.len(),
                r.len() == i,
                params_lowered(v@.take(i as int), r@, self.defs),
                self.ast == old(self).ast,
                self.defs == old(self).defs,
                forall|j: int| 0 <= j < v.len() ==> lowerable_param(#[trigger] v@[j], self.defs),
            decreases v.len() - i,
        {
            proof {
                assert(decreases_to!(*v => v[i as int]));
            }
            let ghost prev = r@;
            let x = self.lower_param(&v[i]);
            r.push(x);
            proof {
                assert(v@.take(i + 1).drop_last() =~= v@.take(i as int));
                assert(r@.drop_last() =~= prev);
            }
            i = i + 1;
        }
        assert(v@.take(v.len() as int) =~= v@);
        r
    }

    fn lower_param(&mut self, param: &AstNode<ast::Param>) -> (r: HirNode<hir::Param>)
        requires
            lowerable_param(*param, old(self).defs),
        ensures
            r.span == param.span,
            final(self).ast == old(self).ast,
            final(self).defs == old(self).defs,
            param_lowered(*param, r, old(self).defs),
        decreases param,
    {
        let pattern = self.lower_pattern(&param.node.pattern);
        let type_annotation = self.lower_type(&param.node.type_annotation);
        self.mk(hir::Param { pattern, type_annotation }, param.span)
    }

    fn lower_generic_params(&mut self, v: &Vec<AstNode<ast::GenericParam>>) -> (r: Vec<HirNode<hir::GenericParam>>)
        requires
            lowerable_generics(*v, old(self).defs),
        ensures
            r.len() == v.len(),
            final(self).ast == old(self).ast,
            final(self).defs == old(self).defs,
            generics_lowered(v@, r@, old(self).defs),
        decreases v,
    {
        let mut r: Vec<HirNode<hir::GenericParam>> = Vec::new();
        let mut i: usize = 0;
        while i < v.len()
            invariant
                i <= v.len(),
                r.len() == i,
                generics_lowered(v@.take(i as int), r@, self.defs),
                self.ast == old(self).ast,
                self.defs == old(self).defs,
                lowerable_generics(*v, self.defs),
            decreases v.len() - i,
        {
            proof {
                assert(decreases_to!(*v => v[i as int]));
                assert(lowerable_generic_param(v@[i as int], self.defs));
            }
            let ghost prev = r@;
            let x = self.lower_generic_param(&v[i]);
            r.push(x);
            proof {
                assert(v@.take(i + 1).drop_last() =~= v@.take(i as int));
                assert(r@.drop_last() =~= prev);
            }
            i = i + 1;
        }
        assert(v@.take(v.len() as int) =~= v@);
        r
    }

    fn lower_generic_param(&mut self, generic_param: &AstNode<ast::GenericParam>) -> (r: HirNode<hir::GenericParam>)
        requires
            lowerable_generic_param(*generic_param, old(self).defs),
        ensures
            r.span == generic_param.span,
            r.node.def_id == old(self).defs.ast_to_def_view()[generic_param.ast_id.0],
            final(self).ast == old(self).ast,
            final(self).defs == old(self).defs,
            generic_param_lowered(*generic_param, r, old(self).defs),
        decreases generic_param,
    {
        let def_id = self.def_of(generic_param.ast_id);
        let ident = self.lower_ident(&generic_param.node.ident);
        let bounds = self.lower_paths(&generic_param.node.bounds);
        let kind = match &generic_param.node.kind {
            ast::GenericParamKind::Const(ty) => hir::GenericParamKind::Const(self.lower_type(ty)),
            ast::GenericParamKind::Type => hir::GenericParamKind::Type,
        };
        self.mk(hir::GenericParam { def_id, ident, bounds, kind }, generic_param.span)
    }

    fn lower_paths(&mut self, v: &Vec<AstNode<ast::Path>>) -> (r: Vec<HirNode<hir::Path>>)
        requires
            forall|i: int| 0 <= i < v.len() ==> lowerable_path(#[trigger] v@[i], old(self).defs),
        ensures
            r.len() == v.len(),
            final(self).ast == old(self).ast,
            final(self).defs == old(self).defs,
            paths_lowered(v@, r@, old(self).defs),
        decreases v,
    {
        let mut r: Vec<HirNode<hir::Path>> = Vec::new();
        let mut i: usize = 0;
        while i < v.len()
            invariant
                i <= v.len(),
                r.len() == i,
                paths_lowered(v@.take(i as int), r@, self.defs),
                self.ast == old(self).ast,
                self.defs == old(self).defs,
                forall|j: int| 0 <= j < v.len() ==> lowerable_path(#[trigger] v@[j], self.defs),
            decreases v.len() - i,
        {
            proof {
                assert(decreases_to!(*v => v[i as int]));
            }
            let ghost prev = r@;
            let x = self.lower_path(&v[i]);
            r.push(x);
            proof {
                assert(v@.take(i + 1).drop_last() =~= v@.take(i as int));
                assert(r@.drop_last() =~= prev);
            }
            i = i + 1;
        }
        assert(v@.take(v.len() as int) =~= v@);
        r
    }

    /// Lowers a path with its resolution: a partial resolution splits the
    /// segments into those it resolved and the rest.
    fn lower_path(&mut self, path: &AstNode<ast::Path>) -> (r: HirNode<hir::Path>)
        requires
            lowerable_path(*path, old(self).defs),
        ensures
            r.span == path.span,
            final(self).ast == old(self).ast,
            final(self).defs == old(self).defs,
            path_lowered(*path, r, old(self).defs),
        decreases path,
    {
        let segments = &path.node.segments;
        let lowered_path = match self.defs.get_partial_res(path.ast_id) {
            Some(partial_res) => {
                let res = partial_res.base_res();
                let resolved = segments.len() - partial_res.unresolved_segments();
                let mut resolved_segments: Vec<HirNode<hir::PathSegment>> = Vec::new();
                let mut unresolved_segments: Vec<HirNode<hir::PathSegment>> = Vec::new();
                let mut i: usize = 0;
                while i < segments.len()
                    invariant
                        i <= segments.len(),
                        resolved <= segments.len(),
                        resolved_segments.len() == if i < resolved { i } else { resolved },
                        unresolved_segments.len() == if i < resolved { 0 } else { i - resolved },
                        self.ast == old(self).ast,
                        self.defs == old(self).defs,
                        segments == path.node.segments,
                        lowerable_path(*path, self.defs),
                        segments_split_lowered(
                            segments@.take(i as int),
                            resolved as int,
                            resolved_segments@,
                            unresolved_segments@,
                            self.defs,
                        ),
                    decreases segments.len() - i,
                {
                    proof {
                        assert(decreases_to!(*path => path.node));
                        assert(decreases_to!(path.node => path.node.segments));
                        assert(decreases_to!(path.node.segments => path.node.segments[i as int]));
                    }
                    let ghost prev_resolved = resolved_segments@;
                    let ghost prev_unresolved = unresolved_segments@;
                    let x = self.lower_segment(&segments[i]);
                    if i < resolved {
                        resolved_segments.push(x);
                        assert(resolved_segments@.drop_last() =~= prev_resolved);
                    } else {
                        unresolved_segments.push(x);
                        assert(unresolved_segments@.drop_last() =~= prev_unresolved);
                    }
                    assert(segments@.take(i + 1).drop_last() =~= segments@.take(i as int));
                    i = i + 1;
                }
                assert(segments@.take(segments.len() as int) =~= segments@);
                hir::Path::Unresolved { res, resolved_segments, unresolved_segments }
            },
            None => {
                let res = match self.defs.get_resolution(path.ast_id) {
                    Some(res) => *res,
                    None => {
                        proof {
                            assert(false);
                        }
                        Res::Error
                    },
                };
                let segments = self.lower_segments(&path.node.segments);
                hir::Path::Resolved { res, segments }
            },
        };
        self.mk(lowered_path, path.span)
    }

    fn lower_segments(&mut self, v: &Vec<AstNode<ast::PathSegment>>) -> (r: Vec<HirNode<hir::PathSegment>>)
        requires
            forall|i: int| 0 <= i < v.len() ==> lowerable_segment(#[trigger] v@[i], old(self).defs),
        ensures
            r.len() == v.len(),
            final(self).ast == old(self).ast,
            final(self).defs == old(self).defs,
            segments_lowered(v@, r@, old(self).defs),
        decreases v,
    {
        let mut r: Vec<HirNode<hir::PathSegment>> = Vec::new();
        let mut i: usize = 0;
        while i < v.len()
            invariant
                i <= v.len(),
                r.len() == i,
                segments_lowered(v@.take(i as int), r@, self.defs),
                self.ast == old(self).ast,
                self.defs == old(self).defs,
                forall|j: int| 0 <= j < v.len() ==> lowerable_segment(#[trigger] v@[j], self.defs),
            decreases v.len() - i,
        {
            proof {
                assert(decreases_to!(*v => v[i as int]));
            }
            let ghost prev = r@;
            let x = self.lower_segment(&v[i]);
            r.push(x);
            proof {
                assert(v@.take(i + 1).drop_last() =~= v@.take(i as int));
                assert(r@.drop_last() =~= prev);
            }
            i = i + 1;
        }
        assert(v@.take(v.len() as int) =~= v@);
        r
    }

    fn lower_segment(&mut self, segment: &AstNode<ast::PathSegment>) -> (r: HirNode<hir::PathSegment>)
        requires
            lowerable_segment(*segment, old(self).defs),
        ensures
            r.span == segment.span,
            r.node.ident.node.name@ == segment.node.ident.node.name@,
            r.node.args.len() == segment.node.args.len(),
            final(self).ast == old(self).ast,
            final(self).defs == old(self).defs,
            segment_lowered(*segment, r, old(self).defs),
        decreases segment,
    {
        let ident = self.lower_ident(&segment.node.ident);
        let args = self.lower_generic_args(&segment.node.args);
        self.mk(hir::PathSegment { ident, args }, segment.span)
    }

    fn lower_generic_args(&mut self, v: &Vec<AstNode<ast::GenericArg>>) -> (r: Vec<HirNode<hir::GenericArg>>)
        requires
            forall|i: int| 0 <= i < v.len() ==> lowerable_generic_arg(#[trigger] v@[i], old(self).defs),
        ensures
            r.len() == v.len(),
            final(self).ast == old(self).ast,
            final(self).defs == old(self).defs,
            args_lowered(v@, r@, old(self).defs),
        decreases v,
    {
        let mut r: Vec<HirNode<hir::GenericArg>> = Vec::new();
        let mut i: usize = 0;
        while i < v.len()
            invariant
                i <= v.len(),
                r.len() == i,
                args_lowered(v@.take(i as int), r@, self.defs),
                self.ast == old(self).ast,
                self.defs == old(self).defs,
                forall|j: int| 0 <= j < v.len() ==> lowerable_generic_arg(#[trigger] v@[j], self.defs),
            decreases v.len() - i,
        {
            proof {
                assert(decreases_to!(*v => v[i as int]));
            }
            let ghost prev = r@;
            let x = self.lower_generic_arg(&v[i]);
            r.push(x);
            proof {
                assert(v@.take(i + 1).drop_last() =~= v@.take(i as int));
                assert(r@.drop_last() =~= prev);
            }
            i = i + 1;
        }
        assert(v@.take(v.len() as int) =~= v@);
        r
    }

    fn lower_generic_arg(&mut self, generic_arg: &AstNode<ast::GenericArg>) -> (r: HirNode<hir::GenericArg>)
        requires
            lowerable_generic_arg(*generic_arg, old(self).defs),
        ensures
            r.span == generic_arg.span,
            final(self).ast == old(self).ast,
            final(self).defs == old(self).defs,
            arg_lowered(*generic_arg, r, old(self).defs),
        decreases generic_arg,
    {
        let arg = match &generic_arg.node {
            ast::GenericArg::Type(ty) => hir::GenericArg::Type(self.lower_type(ty)),
            ast::GenericArg::Const(expr) => hir::GenericArg::Const(Box::new(self.lower_expr(expr))),
        };
        self.mk(arg, generic_arg.span)
    }

    fn lower_types(&mut self, v: &Vec<AstNode<ast::Ty>>) -> (r: Vec<HirNode<hir::Ty>>)
        requires
            forall|i: int| 0 <= i < v.len() ==> lowerable_ty(#[trigger] v@[i], old(self).defs),
        ensures
            r.len() == v.len(),
            final(self).ast == old(self).ast,
            final(self).defs == old(self).defs,
            tys_lowered(v@, r@, old(self).defs),
        decreases v,
    {
        let mut r: Vec<HirNode<hir::Ty>> = Vec::new();
        let mut i: usize = 0;
        while i < v.len()
            invariant
                i <= v.len(),
                r.len() == i,
                tys_lowered(v@.take(i as int), r@, self.defs),
                self.ast == old(self).ast,
                self.defs == old(self).defs,
                forall|j: int| 0 <= j < v.len() ==> lowerable_ty(#[trigger] v@[j], self.defs),
            decreases v.len() - i,
        {
            proof {
                assert(decreases_to!(*v => v[i as int]));
            }
            let ghost prev = r@;
            let x = self.lower_type(&v[i]);
            r.push(x);
            proof {
                assert(v@.take(i + 1).drop_last() =~= v@.take(i as int));
                assert(r@.drop_last() =~= prev);
            }
            i = i + 1;
        }
        assert(v@.take(v.len() as int) =~= v@);
        r
    }

    fn lower_type(&mut self, ty: &AstNode<ast::Ty>) -> (r: HirNode<hir::Ty>)
        requires
            lowerable_ty(*ty, old(self).defs),
        ensures
            r.span == ty.span,
            final(self).ast == old(self).ast,
            final(self).defs == old(self).defs,
            ty_lowered(*ty, r, old(self).defs),
        decreases ty,
    {
        let hir_ty = match &ty.node {
            ast::Ty::Path(path) => hir::Ty::Path(self.lower_path(path)),
            ast::Ty::Array(inner, expr) => {
                let inner = self.lower_type(inner);
                let len = self.lower_expr(expr);
                hir::Ty::Array(Box::new(inner), Box::new(len))
            },
            ast::Ty::Ptr(inner) => hir::Ty::Ptr(Box::new(self.lower_type(inner))),
            ast::Ty::Fn(param_tys, return_ty) => {
                let param_tys = self.lower_types(param_tys);
                let return_ty = match &**return_ty {
                    Some(t) => Some(Box::new(self.lower_type(t))),
                    None => None,
                };
                hir::Ty::Fn(param_tys, return_ty)
            },
            ast::Ty::Tuple(types) => hir::Ty::Tuple(self.lower_types(types)),
        };
        self.mk(hir_ty, ty.span)
    }

    fn lower_stmt(&mut self, stmt: &AstNode<ast::Stmt>) -> (r: HirNode<hir::Stmt>)
        requires
            lowerable_stmt(*stmt, old(self).defs),
        ensures
            r.span == stmt.span,
            final(self).ast == old(self).ast,
            final(self).defs == old(self).defs,
            stmt_lowered(*stmt, r, old(self).defs),
        decreases stmt,
    {
        let hir_stmt = match &stmt.node {
            ast::Stmt::Item(item) => hir::Stmt::Item(self.lower_item(item)),
            ast::Stmt::Let(let_stmt) => {
                let pattern = self.lower_pattern(&let_stmt.pat);
                let ty = match &let_stmt.type_annotation {
                    Some(t) => Some(self.lower_type(t)),
                    None => None,
                };
                let expr = match &let_stmt.expr {
                    Some(e) => Some(Box::new(self.lower_expr(e))),
                    None => None,
                };
                hir::Stmt::Let(hir::LetStmt { pattern, ty, expr })
            },
            ast::Stmt::Expr(expr) => hir::Stmt::Expr(self.lower_expr(expr)),
            ast::Stmt::Semi(expr) => hir::Stmt::Semi(self.lower_expr(expr)),
            ast::Stmt::Error => {
                proof {
                    assert(false);
                }
                hir::Stmt::Expr(self.mk(hir::Expr::Error, stmt.span))
            },
        };
        self.mk(hir_stmt, stmt.span)
    }

    fn lower_exprs(&mut self, v: &Vec<AstNode<ast::Expr>>) -> (r: Vec<HirNode<hir::Expr>>)
        requires
            lowerable_exprs(*v, old(self).defs),
        ensures
            r.len() == v.len(),
            final(self).ast == old(self).ast,
            final(self).defs == old(self).defs,
            exprs_lowered(v@, r@, old(self).defs),
        decreases v,
    {
        let mut r: Vec<HirNode<hir::Expr>> = Vec::new();
        let mut i: usize = 0;
        while i < v.len()
            invariant
                i <= v.len(),
                r.len() == i,
                exprs_lowered(v@.take(i as int), r@, self.defs),
                self.ast == old(self).ast,
                self.defs == old(self).defs,
                lowerable_exprs(*v, self.defs),
            decreases v.len() - i,
        {
            proof {
                assert(decreases_to!(*v => v[i as int]));
                assert(lowerable_expr(v@[i as int], self.defs));
            }
            let ghost prev = r@;
            let x = self.lower_expr(&v[i]);
            r.push(x);
            proof {
                assert(v@.take(i + 1).drop_last() =~= v@.take(i as int));
                assert(r@.drop_last() =~= prev);
            }
            i = i + 1;
        }
        assert(v@.take(v.len() as int) =~= v@);
        r
    }

    fn lower_opt_expr(&mut self, e: &Option<Box<AstNode<ast::Expr>>>) -> (r: Option<Box<HirNode<hir::Expr>>>)
        requires
            lowerable_opt_expr(*e, old(self).defs),
        ensures
            r is Some <==> e is Some,
            final(self).ast == old(self).ast,
            final(self).defs == old(self).defs,
            opt_expr_lowered(*e, r, old(self).defs),
        decreases e,
    {
        match e {
            Some(e) => Some(Box::new(self.lower_expr(e))),
            None => None,
        }
    }

    /// A block holding the one statement `break`.
    fn break_block(&mut self, span: Span) -> (r: HirNode<hir::BlockExpr>)
        ensures
            r.span == span,
            final(self).ast == old(self).ast,
            final(self).defs == old(self).defs,
            is_break_block(r, span),
    {
        let brk = self.mk(hir::Expr::Break(None), span);
        let stmt = self.mk(hir::Stmt::Expr(brk), span);
        let mut stmts: Vec<HirNode<hir::Stmt>> = Vec::new();
        stmts.push(stmt);
        self.mk(hir::BlockExpr { stmts }, span)
    }

    fn lower_expr(&mut self, expr: &AstNode<ast::Expr>) -> (r: HirNode<hir::Expr>)
        requires
            lowerable_expr(*expr, old(self).defs),
        ensures
            r.span == expr.span,
            final(self).ast == old(self).ast,
            final(self).defs == old(self).defs,
            expr_lowered(*expr, r, old(self).defs),
        decreases expr,
    {
        let hir_expr = match &expr.node {
            ast::Expr::Array(array_expr) => hir::Expr::Array(self.lower_exprs(&array_expr.expressions)),
            ast::Expr::Struct(struct_expr) => {
                let path = self.lower_path(&struct_expr.name);
                let fields = self.lower_struct_expr_fields(&struct_expr.fields);
                hir::Expr::Struct(hir::StructExpr { path, fields })
            },
            ast::Expr::Call(call_expr) => {
                let callee = Box::new(self.lower_expr(&call_expr.callee));
                let args = self.lower_exprs(&call_expr.arguments);
                hir::Expr::Call(hir::CallExpr { callee, args })
            },
            ast::Expr::MethodCall(method_call_expr) => {
                let receiver = Box::new(self.lower_expr(&method_call_expr.receiver));
                let method = self.lower_segment(&method_call_expr.name);
                let args = self.lower_exprs(&method_call_expr.arguments);
                hir::Expr::MethodCall(hir::MethodCallExpr { receiver, method, args })
            },
            ast::Expr::Tuple(tuple_expr) => hir::Expr::Tuple(self.lower_exprs(&tuple_expr.expressions)),
            ast::Expr::Cast(cast_expr) => {
                let e = Box::new(self.lower_expr(&cast_expr.expr));
                let ty = self.lower_type(&cast_expr.ty);
                hir::Expr::Cast(hir::CastExpr { expr: e, ty })
            },
            ast::Expr::Return(return_expr) => hir::Expr::Return(self.lower_opt_expr(&return_expr.value)),
            ast::Expr::While(while_expr) => {
                // while cond { body } => loop { if cond { body } else { break } }
                let condition = Box::new(self.lower_expr(&while_expr.condition));
                let then_branch = self.lower_block_expr(&while_expr.body);
                let else_branch = self.break_block(expr.span);
                let if_expr = self.mk(
                    hir::Expr::If(hir::IfExpr { condition, then_branch, else_branch: Some(else_branch) }),
                    expr.span,
                );
                let stmt = self.mk(hir::Stmt::Expr(if_expr), expr.span);
                let mut stmts: Vec<HirNode<hir::Stmt>> = Vec::new();
                stmts.push(stmt);
                let body = self.mk(hir::BlockExpr { stmts }, expr.span);
                hir::Expr::Loop(hir::LoopExpr { body })
            },
            ast::Expr::Loop(loop_expr) => {
                let body = self.lower_block_expr(&loop_expr.body);
                hir::Expr::Loop(hir::LoopExpr { body })
            },
            ast::Expr::For(_) => {
                proof {
                    assert(false);
                }
                hir::Expr::Error
            },
            ast::Expr::Assign(assign_expr) => {
                let lhs = Box::new(self.lower_expr(&assign_expr.target));
                let rhs = Box::new(self.lower_expr(&assign_expr.value));
                hir::Expr::Assign(hir::AssignExpr { lhs, rhs })
            },
            ast::Expr::AssignOp(assign_op_expr) => {
                // a op= b => a = a op b
                let lhs = Box::new(self.lower_expr(&assign_op_expr.target));
                let rhs_left = Box::new(self.lower_expr(&assign_op_expr.target));
                let rhs_right = Box::new(self.lower_expr(&assign_op_expr.value));
                let bin_op = self.lower_assign_op(&assign_op_expr.op.node);
                let rhs = Box::new(
                    self.mk(
                        hir::Expr::Binary(hir::BinaryExpr { lhs: rhs_left, op: bin_op, rhs: rhs_right }),
                        expr.span,
                    ),
                );
                hir::Expr::Assign(hir::AssignExpr { lhs, rhs })
            },
            ast::Expr::FieldAccess(field_access_expr) => {
                let base = Box::new(self.lower_expr(&field_access_expr.target));
                let field = self.lower_ident(&field_access_expr.field);
                hir::Expr::Field(hir::FieldExpr { base, field })
            },
            ast::Expr::Index(index_expr) => {
                let base = Box::new(self.lower_expr(&index_expr.target));
                let index = Box::new(self.lower_expr(&index_expr.index));
                hir::Expr::Index(hir::IndexExpr { base, index })
            },
            ast::Expr::Path(path_expr) => hir::Expr::Path(self.lower_path(&path_expr.path)),
            ast::Expr::AddrOf(addr_of_expr) => hir::Expr::AddrOf(Box::new(self.lower_expr(&addr_of_expr.expr))),
            ast::Expr::Break(break_expr) => hir::Expr::Break(self.lower_opt_expr(&break_expr.expr)),
            ast::Expr::Continue => hir::Expr::Continue,
            ast::Expr::Literal(lit_expr) => hir::Expr::Literal(self.lower_literal(lit_expr)),
            ast::Expr::Binary(binary_expr) => {
                let lhs = Box::new(self.lower_expr(&binary_expr.left));
                let op = self.lower_bin_op(&binary_expr.operator.node);
                let rhs = Box::new(self.lower_expr(&binary_expr.right));
                hir::Expr::Binary(hir::BinaryExpr { lhs, op, rhs })
            },
            ast::Expr::Unary(unary_expr) => {
                let op = self.lower_un_op(&unary_expr.operator.node);
                let operand = Box::new(self.lower_expr(&unary_expr.operand));
                hir::Expr::Unary(hir::UnaryExpr { op, operand })
            },
            ast::Expr::If(if_expr) => {
                let condition = Box::new(self.lower_expr(&if_expr.condition));
                let then_branch = self.lower_block_expr(&if_expr.then_branch);
                let else_branch = match &if_expr.else_branch {
                    Some(b) => Some(self.lower_block_expr(b)),
                    None => None,
                };
                hir::Expr::If(hir::IfExpr { condition, then_branch, else_branch })
            },
            ast::Expr::Block(block_expr) => {
                let stmts = self.lower_stmts(&block_expr.stmts);
                let block = self.mk(hir::BlockExpr { stmts }, expr.span);
                hir::Expr::Block(block)
            },
            ast::Expr::Match(match_expr) => {
                let scrutinee = Box::new(self.lower_expr(&match_expr.value));
                let arms = self.lower_match_arms(&match_expr.arms);
                hir::Expr::Match(hir::MatchExpr { scrutinee, arms })
            },
            ast::Expr::Let(let_expr) => {
                let pattern = self.lower_pattern(&let_expr.pattern);
                let init = Box::new(self.lower_expr(&let_expr.value));
                hir::Expr::Let(hir::LetExpr { pattern, init })
            },
            ast::Expr::Paren(inner) => self.lower_expr(inner).node,
            ast::Expr::Error => hir::Expr::Error,
        };
        self.mk(hir_expr, expr.span)
    }

    fn lower_struct_expr_fields(&mut self, v: &Vec<AstNode<ast::StructExprField>>) -> (r: Vec<HirNode<hir::StructExprField>>)
        requires
            forall|i: int| 0 <= i < v.len() ==> lowerable_struct_expr_field(#[trigger] v@[i], old(self).defs),
        ensures
            r.len() == v.len(),
            final(self).ast == old(self).ast,
            final(self).defs == old(self).defs,
            expr_fields_lowered(v@, r@, old(self).defs),
        decreases v,
    {
        let mut r: Vec<HirNode<hir::StructExprField>> = Vec::new();
        let mut i: usize = 0;
        while i < v.len()
            invariant
                i <= v.len(),
                r.len() == i,
                expr_fields_lowered(v@.take(i as int), r@, self.defs),
                self.ast == old(self).ast,
                self.defs == old(self).defs,
                forall|j: int| 0 <= j < v.len() ==> lowerable_struct_expr_field(#[trigger] v@[j], self.defs),
            decreases v.len() - i,
        {
            proof {
                assert(decreases_to!(*v => v[i as int]));
            }
            let ghost prev = r@;
            let x = self.lower_struct_expr_field(&v[i]);
            r.push(x);
            proof {
                assert(v@.take(i + 1).drop_last() =~= v@.take(i as int));
                assert(r@.drop_last() =~= prev);
            }
            i = i + 1;
        }
        assert(v@.take(v.len() as int) =~= v@);
        r
    }

    fn lower_struct_expr_field(&mut self, field: &AstNode<ast::StructExprField>) -> (r: HirNode<hir::StructExprField>)
        requires
            lowerable_struct_expr_field(*field, old(self).defs),
        ensures
            r.span == field.span,
            final(self).ast == old(self).ast,
            final(self).defs == old(self).defs,
            expr_field_lowered(*field, r, old(self).defs),
        decreases field,
    {
        let ident = self.lower_ident(&field.node.ident);
        let expr = Box::new(self.lower_expr(&field.node.expr));
        self.mk(hir::StructExprField { ident, expr }, field.span)
    }

    fn lower_match_arms(&mut self, v: &Vec<AstNode<ast::MatchArm>>) -> (r: Vec<HirNode<hir::MatchArm>>)
        requires
            forall|i: int| 0 <= i < v.len() ==> lowerable_match_arm(#[trigger] v@[i], old(self).defs),
        ensures
            r.len() == v.len(),
            final(self).ast == old(self).ast,
            final(self).defs == old(self).defs,
            arms_lowered(v@, r@, old(self).defs),
        decreases v,
    {
        let mut r: Vec<HirNode<hir::MatchArm>> = Vec::new();
        let mut i: usize = 0;
        while i < v.len()
            invariant
                i <= v.len(),
                r.len() == i,
                arms_lowered(v@.take(i as int), r@, self.defs),
                self.ast == old(self).ast,
                self.defs == old(self).defs,
                forall|j: int| 0 <= j < v.len() ==> lowerable_match_arm(#[trigger] v@[j], self.defs),
            decreases v.len() - i,
        {
            proof {
                assert(decreases_to!(*v => v[i as int]));
            }
            let ghost prev = r@;
            let x = self.lower_match_arm(&v[i]);
            r.push(x);
            proof {
                assert(v@.take(i + 1).drop_last() =~= v@.take(i as int));
                assert(r@.drop_last() =~= prev);
            }
            i = i + 1;
        }
        assert(v@.take(v.len() as int) =~= v@);
        r
    }

    fn lower_match_arm(&mut self, arm: &AstNode<ast::MatchArm>) -> (r: HirNode<hir::MatchArm>)
        requires
            lowerable_match_arm(*arm, old(self).defs),
        ensures
            r.span == arm.span,
            final(self).ast == old(self).ast,
            final(self).defs == old(self).defs,
            arm_lowered(*arm, r, old(self).defs),
        decreases arm,
    {
        let pattern = self.lower_pattern(&arm.node.pattern);
        let body = Box::new(self.lower_expr(&arm.node.body));
        self.mk(hir::MatchArm { pattern, body }, arm.span)
    }

    /// Lowers the statements of a block, leaving out `use` items.
    fn lower_stmts(&mut self, v: &Vec<AstNode<ast::Stmt>>) -> (r: Vec<HirNode<hir::Stmt>>)
        requires
            forall|i: int| 0 <= i < v.len() ==> is_use_stmt(#[trigger] v@[i]) || lowerable_stmt(v@[i], old(self).defs),
        ensures
            r.len() <= v.len(),
            final(self).ast == old(self).ast,
            final(self).defs == old(self).defs,
            stmts_lowered(v@, r@, old(self).defs),
        decreases v,
    {
        let mut r: Vec<HirNode<hir::Stmt>> = Vec::new();
        let mut i: usize = 0;
        while i < v.len()
            invariant
                i <= v.len(),
                r.len() <= i,
                stmts_lowered(v@.take(i as int), r@, self.defs),
                self.ast == old(self).ast,
                self.defs == old(self).defs,
                forall|j: int| 0 <= j < v.len() ==> is_use_stmt(#[trigger] v@[j]) || lowerable_stmt(v@[j], self.defs),
            decreases v.len() - i,
        {
            proof {
                assert(decreases_to!(*v => v[i as int]));
            }
            let is_use = match &v[i].node {
                ast::Stmt::Item(item) => match &item.node {
                    ast::Item::Use(_) => true,
                    _ => false,
                },
                _ => false,
            };
            let ghost prev = r@;
            if !is_use {
                let x = self.lower_stmt(&v[i]);
                r.push(x);
                assert(r@.drop_last() =~= prev);
            }
            assert(v@.take(i + 1).drop_last() =~= v@.take(i as int));
            i = i + 1;
        }
        assert(v@.take(v.len() as int) =~= v@);
        r
    }

    fn lower_block_expr(&mut self, block: &AstNode<ast::BlockExpr>) -> (r: HirNode<hir::BlockExpr>)
        requires
            lowerable_block(*block, old(self).defs),
        ensures
            r.span == block.span,
            final(self).ast == old(self).ast,
            final(self).defs == old(self).defs,
            block_lowered(*block, r, old(self).defs),
        decreases block,
    {
        let stmts = self.lower_stmts(&block.node.stmts);
        self.mk(hir::BlockExpr { stmts }, block.span)
    }

    fn lower_patterns(&mut self, v: &Vec<AstNode<ast::Pattern>>) -> (r: Vec<HirNode<hir::Pattern>>)
        requires
            forall|i: int| 0 <= i < v.len() ==> lowerable_pattern(#[trigger] v@[i], old(self).defs),
        ensures
            r.len() == v.len(),
            final(self).ast == old(self).ast,
            final(self).defs == old(self).defs,
            patterns_lowered(v@, r@, old(self).defs),
        decreases v,
    {
        let mut r: Vec<HirNode<hir::Pattern>> = Vec::new();
        let mut i: usize = 0;
        while i < v.len()
            invariant
                i <= v.len(),
                r.len() == i,
                patterns_lowered(v@.take(i as int), r@, self.defs),
                self.ast == old(self).ast,
                self.defs == old(self).defs,
                forall|j: int| 0 <= j < v.len() ==> lowerable_pattern(#[trigger] v@[j], self.defs),
            decreases v.len() - i,
        {
            proof {
                assert(decreases_to!(*v => v[i as int]));
            }
            let ghost prev = r@;
            let x = self.lower_pattern(&v[i]);
            r.push(x);
            proof {
                assert(v@.take(i + 1).drop_last() =~= v@.take(i as int));
                assert(r@.drop_last() =~= prev);
            }
            i = i + 1;
        }
        assert(v@.take(v.len() as int) =~= v@);
        r
    }

    fn lower_pattern(&mut self, pattern: &AstNode<ast::Pattern>) -> (r: HirNode<hir::Pattern>)
        requires
            lowerable_pattern(*pattern, old(self).defs),
        ensures
            r.span == pattern.span,
            final(self).ast == old(self).ast,
            final(self).defs == old(self).defs,
            pattern_lowered(*pattern, r, old(self).defs),
        decreases pattern,
    {
        let pat = match &pattern.node {
            ast::Pattern::Wildcard => hir::Pattern::Wildcard,
            ast::Pattern::Or(patterns) => hir::Pattern::Or(self.lower_patterns(patterns)),
            ast::Pattern::Path(path) => hir::Pattern::Path(self.lower_path(path)),
            ast::Pattern::Struct(path, struct_fields) => {
                let path = self.lower_path(path);
                let fields = self.lower_pattern_struct_fields(struct_fields);
                hir::Pattern::Struct(path, fields)
            },
            ast::Pattern::TupleStruct(path, patterns) => {
                let path = self.lower_path(path);
                let patterns = self.lower_patterns(patterns);
                hir::Pattern::TupleStruct(path, patterns)
            },
            ast::Pattern::Tuple(patterns) => hir::Pattern::Tuple(self.lower_patterns(patterns)),
            ast::Pattern::Expr(expr) => hir::Pattern::Expr(Box::new(self.lower_expr(expr))),
            ast::Pattern::Paren(inner) => self.lower_pattern(inner).node,
        };
        self.mk(pat, pattern.span)
    }

    fn lower_pattern_struct_fields(&mut self, v: &Vec<AstNode<ast::PatternStructField>>) -> (r: Vec<HirNode<hir::PatternStructField>>)
        requires
            forall|i: int| 0 <= i < v.len() ==> lowerable_pattern_field(#[trigger] v@[i], old(self).defs),
        ensures
            r.len() == v.len(),
            final(self).ast == old(self).ast,
            final(self).defs == old(self).defs,
            pattern_fields_lowered(v@, r@, old(self).defs),
        decreases v,
    {
        let mut r: Vec<HirNode<hir::PatternStructField>> = Vec::new();
        let mut i: usize = 0;
        while i < v.len()
            invariant
                i <= v.len(),
                r.len() == i,
                pattern_fields_lowered(v@.take(i as int), r@, self.defs),
                self.ast == old(self).ast,
                self.defs == old(self).defs,
                forall|j: int| 0 <= j < v.len() ==> lowerable_pattern_field(#[trigger] v@[j], self.defs),
            decreases v.len() - i,
        {
            proof {
                assert(decreases_to!(*v => v[i as int]));
            }
            let ghost prev = r@;
            let x = self.lower_pattern_struct_field(&v[i]);
            r.push(x);
            proof {
                assert(v@.take(i + 1).drop_last() =~= v@.take(i as int));
                assert(r@.drop_last() =~= prev);
            }
            i = i + 1;
        }
        assert(v@.take(v.len() as int) =~= v@);
        r
    }

    fn lower_pattern_struct_field(&mut self, struct_field: &AstNode<ast::PatternStructField>) -> (r: HirNode<hir::PatternStructField>)
        requires
            lowerable_pattern_field(*struct_field, old(self).defs),
        ensures
            r.span == struct_field.span,
            final(self).ast == old(self).ast,
            final(self).defs == old(self).defs,
            pattern_field_lowered(*struct_field, r, old(self).defs),
        decreases struct_field,
    {
        let ident = self.lower_ident(&struct_field.node.ident);
        let pattern = self.lower_pattern(&struct_field.node.pattern);
        self.mk(hir::PatternStructField { ident, pattern }, struct_field.span)
    }

    fn lower_variant_data(&mut self, data: &AstNode<ast::VariantData>) -> (r: HirNode<hir::VariantData>)
        requires
            lowerable_variant_data(*data, old(self).defs),
        ensures
            r.span == data.span,
            final(self).ast == old(self).ast,
            final(self).defs == old(self).defs,
            variant_data_lowered(*data, r, old(self).defs),
        decreases data,
    {
        let hir_data = match &data.node {
            ast::VariantData::Unit => hir::VariantData::Unit,
            ast::VariantData::Struct { fields } => hir::VariantData::Struct { fields: self.lower_struct_fields(fields) },
            ast::VariantData::Tuple { types } => hir::VariantData::Tuple { types: self.lower_types(types) },
        };
        self.mk(hir_data, data.span)
    }

    fn lower_struct_fields(&mut self, v: &Vec<AstNode<ast::StructFieldDef>>) -> (r: Vec<HirNode<hir::StructField>>)
        requires
            forall|i: int| 0 <= i < v.len() ==> lowerable_struct_field(#[trigger] v@[i], old(self).defs),
        ensures
            r.len() == v.len(),
            final(self).ast == old(self).ast,
            final(self).defs == old(self).defs,
            struct_fields_lowered(v@, r@, old(self).defs),
        decreases v,
    {
        let mut r: Vec<HirNode<hir::StructField>> = Vec::new();
        let mut i: usize = 0;
        while i < v.len()
            invariant
                i <= v.len(),
                r.len() == i,
                struct_fields_lowered(v@.take(i as int), r@, self.defs),
                self.ast == old(self).ast,
                self.defs == old(self).defs,
                forall|j: int| 0 <= j < v.len() ==> lowerable_struct_field(#[trigger] v@[j], self.defs),
            decreases v.len() - i,
        {
            proof {
                assert(decreases_to!(*v => v[i as int]));
            }
            let ghost prev = r@;
            let x = self.lower_struct_field(&v[i]);
            r.push(x);
            proof {
                assert(v@.take(i + 1).drop_last() =~= v@.take(i as int));
                assert(r@.drop_last() =~= prev);
            }
            i = i + 1;
        }
        assert(v@.take(v.len() as int) =~= v@);
        r
    }

    fn lower_struct_field(&mut self, field: &AstNode<ast::StructFieldDef>) -> (r: HirNode<hir::StructField>)
        requires
            lowerable_struct_field(*field, old(self).defs),
        ensures
            r.span == field.span,
            r.node.def_id == old(self).defs.ast_to_def_view()[field.ast_id.0],
            final(self).ast == old(self).ast,
            final(self).defs == old(self).defs,
            struct_field_lowered(*field, r, old(self).defs),
        decreases field,
    {
        let def_id = self.def_of(field.ast_id);
        let ident = self.lower_ident(&field.node.ident);
        let ty = self.lower_type(&field.node.type_annotation);
        self.mk(hir::StructField { def_id, ident, ty }, field.span)
    }

    fn lower_enum_variants(&mut self, v: &Vec<AstNode<ast::EnumVariant>>) -> (r: Vec<HirNode<hir::EnumVariant>>)
        requires
            forall|i: int| 0 <= i < v.len() ==> lowerable_enum_variant(#[trigger] v@[i], old(self).defs),
        ensures
            r.len() == v.len(),
            final(self).ast == old(self).ast,
            final(self).defs == old(self).defs,
            variants_lowered(v@, r@, old(self).defs),
        decreases v,
    {
        let mut r: Vec<HirNode<hir::EnumVariant>> = Vec::new();
        let mut i: usize = 0;
        while i < v.len()
            invariant
                i <= v.len(),
                r.len() == i,
                variants_lowered(v@.take(i as int), r@, self.defs),
                self.ast == old(self).ast,
                self.defs == old(self).defs,
                forall|j: int| 0 <= j < v.len() ==> lowerable_enum_variant(#[trigger] v@[j], self.defs),
            decreases v.len() - i,
        {
            proof {
                assert(decreases_to!(*v => v[i as int]));
            }
            let ghost prev = r@;
            let x = self.lower_enum_variant(&v[i]);
            r.push(x);
            proof {
                assert(v@.take(i + 1).drop_last() =~= v@.take(i as int));
                assert(r@.drop_last() =~= prev);
            }
            i = i + 1;
        }
        assert(v@.take(v.len() as int) =~= v@);
        r
    }

    fn lower_enum_variant(&mut self, variant: &AstNode<ast::EnumVariant>) -> (r: HirNode<hir::EnumVariant>)
        requires
            lowerable_enum_variant(*variant, old(self).defs),
        ensures
            r.span == variant.span,
            r.node.def_id == old(self).defs.ast_to_def_view()[variant.ast_id.0],
            final(self).ast == old(self).ast,
            final(self).defs == old(self).defs,
            variant_lowered(*variant, r, old(self).defs),
        decreases variant,
    {
        let def_id = self.def_of(variant.ast_id);
        let ident = self.lower_ident(&variant.node.ident);
        let data = self.lower_variant_data(&variant.node.data);
        self.mk(hir::EnumVariant { def_id, ident, data }, variant.span)
    }

    fn lower_associated_items(&mut self, v: &Vec<AstNode<ast::AssociatedItem>>) -> (r: Vec<HirNode<hir::AssociatedItem>>)
        requires
            forall|i: int| 0 <= i < v.len() ==> lowerable_assoc_item(#[trigger] v@[i], old(self).defs),
        ensures
            r.len() == v.len(),
            final(self).ast == old(self).ast,
            final(self).defs == old(self).defs,
            assoc_items_lowered(v@, r@, old(self).defs),
        decreases v,
    {
        let mut r: Vec<HirNode<hir::AssociatedItem>> = Vec::new();
        let mut i: usize = 0;
        while i < v.len()
            invariant
                i <= v.len(),
                r.len() == i,
                assoc_items_lowered(v@.take(i as int), r@, self.defs),
                self.ast == old(self).ast,
                self.defs == old(self).defs,
                forall|j: int| 0 <= j < v.len() ==> lowerable_assoc_item(#[trigger] v@[j], self.defs),
            decreases v.len() - i,
        {
            proof {
                assert(decreases_to!(*v => v[i as int]));
            }
            let ghost prev = r@;
            let x = self.lower_associated_item(&v[i]);
            r.push(x);
            proof {
                assert(v@.take(i + 1).drop_last() =~= v@.take(i as int));
                assert(r@.drop_last() =~= prev);
            }
            i = i + 1;
        }
        assert(v@.take(v.len() as int) =~= v@);
        r
    }

    fn lower_associated_item(&mut self, item: &AstNode<ast::AssociatedItem>) -> (r: HirNode<hir::AssociatedItem>)
        requires
            lowerable_assoc_item(*item, old(self).defs),
        ensures
            r.span == item.span,
            final(self).ast == old(self).ast,
            final(self).defs == old(self).defs,
            assoc_item_lowered(*item, r, old(self).defs),
        decreases item,
    {
        let hir_item = match &item.node {
            ast::AssociatedItem::Fn(sig, body) => {
                let sig = self.lower_fn_sig(sig);
                let body = match body {
                    Some(b) => Some(self.lower_block_expr(b)),
                    None => None,
                };
                hir::AssociatedItem::Fn(sig, body)
            },
            ast::AssociatedItem::Type(ty_alias) => {
                let def_id = self.def_of(item.ast_id);
                let ident = self.lower_ident(&ty_alias.node.ident);
                let generics = self.lower_generic_params(&ty_alias.node.generics);
                let ty = match &ty_alias.node.ty {
                    Some(t) => Some(self.lower_type(t)),
                    None => None,
                };
                let alias = self.mk(hir::TyAlias { def_id, ident, generics, ty }, ty_alias.span);
                hir::AssociatedItem::Type(alias)
            },
        };
        self.mk(hir_item, item.span)
    }
}


/// How an operator of the lowered tree is written in the source text.
pub open spec fn hir_bin_op_symbol(op: hir::BinOp) -> Seq<char> {
    match op {
        hir::BinOp::Add => seq!['+'],
        hir::BinOp::Sub => seq!['-'],
        hir::BinOp::Mul => seq!['*'],
        hir::BinOp::Div => seq!['/'],
        hir::BinOp::Rem => seq!['%'],
        hir::BinOp::And => seq!['&', '&'],
        hir::BinOp::Or => seq!['|', '|'],
        hir::BinOp::Eq => seq!['=', '='],
        hir::BinOp::Ne => seq!['!', '='],
        hir::BinOp::Lt => seq!['<'],
        hir::BinOp::Le => seq!['<', '='],
        hir::BinOp::Gt => seq!['>'],
        hir::BinOp::Ge => seq!['>', '='],
    }
}

/// Lowering keeps what a binary operator means: the lowered operator is
/// written as the operator of the syntax tree is, so `<` stays `<`, and no
/// two operators lower to the same one.
pub proof fn law_lowering_keeps_bin_op(a: ast::BinOp, b: ast::BinOp)
    ensures
        hir_bin_op_symbol(spec_lower_bin_op(a)) == bin_op_symbol(a),
        spec_lower_bin_op(a) == spec_lower_bin_op(b) ==> a == b,
{
    assert(hir_bin_op_symbol(spec_lower_bin_op(a)) == bin_op_symbol(a));
    if spec_lower_bin_op(a) == spec_lower_bin_op(b) {
        assert(hir_bin_op_symbol(spec_lower_bin_op(b)) == bin_op_symbol(b));
        assert(bin_op_symbol(a) == bin_op_symbol(b));
        assert(bin_op_symbol(a).len() == bin_op_symbol(b).len());
        assert(bin_op_symbol(a)[0] == bin_op_symbol(b)[0]);
        if bin_op_symbol(a).len() == 2 {
            assert(bin_op_symbol(a)[1] == bin_op_symbol(b)[1]);
        }
    }
}


/// How a prefix operator of the lowered tree is written in the source text.
pub open spec fn hir_un_op_symbol(op: hir::UnOp) -> Seq<char> {
    match op {
        hir::UnOp::Deref => seq!['*'],
        hir::UnOp::Not => seq!['!'],
        hir::UnOp::Neg => seq!['-'],
    }
}

/// Lowering keeps what prefix operators and compound assignments mean: a
/// prefix operator lowers to the one written alike, and `a op= b` takes
/// the binary operator written as `op`.
pub proof fn law_lowering_keeps_un_and_assign_ops(u: ast::UnOp, a: ast::AssignOp)
    ensures
        hir_un_op_symbol(spec_lower_un_op(u)) == un_op_symbol(u),
        hir_bin_op_symbol(spec_lower_assign_op(a)).push('=') == assign_op_symbol(a),
{
    assert(hir_un_op_symbol(spec_lower_un_op(u)) == un_op_symbol(u));
    assert(hir_bin_op_symbol(spec_lower_assign_op(a)).push('=') =~= assign_op_symbol(a));
}

} // verus!
