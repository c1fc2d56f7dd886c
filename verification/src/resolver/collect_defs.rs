use crate::parser::ast;
use crate::parser::ast::{AstId, AstNode};
use crate::resolver::defs::{DefKind, DefinitionMap};
use vstd::prelude::*;

verus! {

/// The kind of definition an item makes; a `use` item defines a `Use`, an
/// item standing for a parse error defines nothing.
pub open spec fn spec_def_kind_of(item: ast::Item) -> Option<DefKind> {
    match item {
        ast::Item::Fn(_) => Some(DefKind::Function),
        ast::Item::Struct(_) => Some(DefKind::Struct),
        ast::Item::Enum(_) => Some(DefKind::Enum),
        ast::Item::Trait(_) => Some(DefKind::Trait),
        ast::Item::Mod(_) => Some(DefKind::Mod),
        ast::Item::Impl(_) => Some(DefKind::Impl),
        ast::Item::ExternFn(_) => Some(DefKind::ExternFn),
        ast::Item::Const(_) => Some(DefKind::Const),
        ast::Item::Use(_) => Some(DefKind::Use),
        ast::Item::TyAlias(_) => Some(DefKind::TypeAlias),
        ast::Item::Error => None,
    }
}

pub fn def_kind_of(item: &ast::Item) -> (r: Option<DefKind>)
    ensures
        r == spec_def_kind_of(*item),
{
    match item {
        ast::Item::Fn(_) => Some(DefKind::Function),
        ast::Item::Struct(_) => Some(DefKind::Struct),
        ast::Item::Enum(_) => Some(DefKind::Enum),
        ast::Item::Trait(_) => Some(DefKind::Trait),
        ast::Item::Mod(_) => Some(DefKind::Mod),
        ast::Item::Impl(_) => Some(DefKind::Impl),
        ast::Item::ExternFn(_) => Some(DefKind::ExternFn),
        ast::Item::Const(_) => Some(DefKind::Const),
        ast::Item::Use(_) => Some(DefKind::Use),
        ast::Item::TyAlias(_) => Some(DefKind::TypeAlias),
        ast::Item::Error => None,
    }
}

// The nodes that a walk over a node of the syntax tree gives a definition:
// an item with a definition kind, a generic parameter, an enum variant, a
// struct field and an associated item, each by its node id.

pub open spec fn dn_item(n: AstNode<ast::Item>) -> Set<usize>
    decreases n,
{
    (if spec_def_kind_of(n.node) is Some { set![n.ast_id.0] } else { Set::<usize>::empty() }).union(match n.node {
        ast::Item::Fn(x) => dn_fn_sig(x.sig).union(dn_block(x.body)),
        ast::Item::Struct(x) => dn_generic_params(x.generics@).union(dn_variant_data(x.data)),
        ast::Item::Enum(x) => dn_generic_params(x.generics@).union(dn_enum_variants(x.variants@)),
        ast::Item::Trait(x) => dn_generic_params(x.generics@).union(dn_assoc_items(x.items@)),
        ast::Item::Mod(x) => dn_items(x.items@),
        ast::Item::Impl(x) => dn_generic_params(x.generics@).union(dn_ty(x.self_ty)).union(match x.for_trait { Some(x) => dn_path(x), None => Set::<usize>::empty() }).union(dn_assoc_items(x.items@)),
        ast::Item::ExternFn(x) => dn_fn_sig(x.sig),
        ast::Item::Const(x) => dn_generic_params(x.generics@).union(match x.type_annotation { Some(x) => dn_ty(x), None => Set::<usize>::empty() }).union(dn_expr(x.expr)),
        ast::Item::Use(x) => dn_path(x.path),
        ast::Item::TyAlias(x) => dn_generic_params(x.generics@).union(match x.ty { Some(x) => dn_ty(x), None => Set::<usize>::empty() }),
        ast::Item::Error => Set::<usize>::empty(),
    })
}

pub open spec fn dn_fn_sig(n: AstNode<ast::FnSig>) -> Set<usize>
    decreases n,
{
    dn_generic_params(n.node.generics@).union(dn_params(n.node.params@)).union(match n.node.return_ty { Some(x) => dn_ty(x), None => Set::<usize>::empty() })
}

pub open spec fn dn_generic_param(n: AstNode<ast::GenericParam>) -> Set<usize>
    decreases n,
{
    set![n.ast_id.0].union(dn_paths(n.node.bounds@))
}

pub open spec fn dn_param(n: AstNode<ast::Param>) -> Set<usize>
    decreases n,
{
    dn_pattern(n.node.pattern).union(dn_ty(n.node.type_annotation))
}

pub open spec fn dn_variant_data(n: AstNode<ast::VariantData>) -> Set<usize>
    decreases n,
{
    match n.node {
        ast::VariantData::Unit => Set::<usize>::empty(),
        ast::VariantData::Struct { fields } => dn_struct_fields(fields@),
        ast::VariantData::Tuple { types } => dn_tys(types@),
    }
}

pub open spec fn dn_enum_variant(n: AstNode<ast::EnumVariant>) -> Set<usize>
    decreases n,
{
    set![n.ast_id.0].union(dn_variant_data(n.node.data))
}

pub open spec fn dn_struct_field(n: AstNode<ast::StructFieldDef>) -> Set<usize>
    decreases n,
{
    set![n.ast_id.0].union(dn_ty(n.node.type_annotation))
}

pub open spec fn dn_assoc_item(n: AstNode<ast::AssociatedItem>) -> Set<usize>
    decreases n,
{
    set![n.ast_id.0].union(match n.node {
        ast::AssociatedItem::Fn(sig, body) => dn_fn_sig(sig).union(match body { Some(x) => dn_block(x), None => Set::<usize>::empty() }),
        ast::AssociatedItem::Type(alias) => dn_generic_params(alias.node.generics@).union(match alias.node.ty { Some(x) => dn_ty(x), None => Set::<usize>::empty() }),
    })
}

pub open spec fn dn_path(n: AstNode<ast::Path>) -> Set<usize>
    decreases n,
{
    dn_path_segments(n.node.segments@)
}

pub open spec fn dn_path_segment(n: AstNode<ast::PathSegment>) -> Set<usize>
    decreases n,
{
    dn_generic_args(n.node.args@)
}

pub open spec fn dn_generic_arg(n: AstNode<ast::GenericArg>) -> Set<usize>
    decreases n,
{
    match n.node {
        ast::GenericArg::Type(t) => dn_ty(t),
        ast::GenericArg::Const(e) => dn_expr(*e),
    }
}

pub open spec fn dn_struct_expr_field(n: AstNode<ast::StructExprField>) -> Set<usize>
    decreases n,
{
    dn_expr(*n.node.expr)
}

pub open spec fn dn_stmt(n: AstNode<ast::Stmt>) -> Set<usize>
    decreases n,
{
    match n.node {
        ast::Stmt::Item(i) => dn_item(i),
        ast::Stmt::Let(l) => dn_pattern(l.pat).union(match l.type_annotation { Some(x) => dn_ty(x), None => Set::<usize>::empty() }).union(match l.expr { Some(x) => dn_expr(*x), None => Set::<usize>::empty() }),
        ast::Stmt::Expr(e) => dn_expr(e),
        ast::Stmt::Semi(e) => dn_expr(e),
        ast::Stmt::Error => Set::<usize>::empty(),
    }
}

pub open spec fn dn_block(n: AstNode<ast::BlockExpr>) -> Set<usize>
    decreases n,
{
    dn_stmts(n.node.stmts@)
}

pub open spec fn dn_ty(n: AstNode<ast::Ty>) -> Set<usize>
    decreases n,
{
    match n.node {
        ast::Ty::Path(p) => dn_path(p),
        ast::Ty::Array(t, e) => dn_ty(*t).union(dn_expr(*e)),
        ast::Ty::Ptr(t) => dn_ty(*t),
        ast::Ty::Fn(ps, r) => dn_tys(ps@).union(match *r { Some(x) => dn_ty(x), None => Set::<usize>::empty() }),
        ast::Ty::Tuple(ts) => dn_tys(ts@),
    }
}

pub open spec fn dn_pattern(n: AstNode<ast::Pattern>) -> Set<usize>
    decreases n,
{
    match n.node {
        ast::Pattern::Wildcard => Set::<usize>::empty(),
        ast::Pattern::Or(ps) => dn_patterns(ps@),
        ast::Pattern::Path(p) => dn_path(p),
        ast::Pattern::Struct(p, fs) => dn_path(p).union(dn_pattern_fields(fs@)),
        ast::Pattern::TupleStruct(p, ps) => dn_path(p).union(dn_patterns(ps@)),
        ast::Pattern::Tuple(ps) => dn_patterns(ps@),
        ast::Pattern::Expr(e) => dn_expr(*e),
        ast::Pattern::Paren(p) => dn_pattern(*p),
    }
}

pub open spec fn dn_pattern_field(n: AstNode<ast::PatternStructField>) -> Set<usize>
    decreases n,
{
    dn_pattern(n.node.pattern)
}

pub open spec fn dn_match_arm(n: AstNode<ast::MatchArm>) -> Set<usize>
    decreases n,
{
    dn_pattern(n.node.pattern).union(dn_expr(*n.node.body))
}

pub open spec fn dn_expr(n: AstNode<ast::Expr>) -> Set<usize>
    decreases n,
{
    match n.node {
        ast::Expr::Array(a) => dn_exprs(a.expressions@),
        ast::Expr::Struct(s) => dn_path(s.name).union(dn_struct_expr_fields(s.fields@)),
        ast::Expr::Call(x) => dn_expr(*x.callee).union(dn_exprs(x.arguments@)),
        ast::Expr::MethodCall(m) => dn_path_segment(m.name).union(dn_expr(*m.receiver)).union(dn_exprs(m.arguments@)),
        ast::Expr::Tuple(t) => dn_exprs(t.expressions@),
        ast::Expr::Cast(x) => dn_expr(*x.expr).union(dn_ty(x.ty)),
        ast::Expr::Return(r) => match r.value { Some(x) => dn_expr(*x), None => Set::<usize>::empty() },
        ast::Expr::While(x) => dn_expr(*x.condition).union(dn_block(*x.body)),
        ast::Expr::Loop(x) => dn_block(*x.body),
        ast::Expr::For(x) => dn_pattern(x.pattern).union(dn_expr(*x.iterator)).union(dn_block(*x.body)),
        ast::Expr::Assign(x) => dn_expr(*x.target).union(dn_expr(*x.value)),
        ast::Expr::AssignOp(x) => dn_expr(*x.target).union(dn_expr(*x.value)),
        ast::Expr::FieldAccess(x) => dn_expr(*x.target),
        ast::Expr::Index(x) => dn_expr(*x.target).union(dn_expr(*x.index)),
        ast::Expr::Path(p) => dn_path(p.path),
        ast::Expr::AddrOf(x) => dn_expr(*x.expr),
        ast::Expr::Break(b) => match b.expr { Some(x) => dn_expr(*x), None => Set::<usize>::empty() },
        ast::Expr::Continue => Set::<usize>::empty(),
        ast::Expr::Literal(_) => Set::<usize>::empty(),
        ast::Expr::Binary(b) => dn_expr(*b.left).union(dn_expr(*b.right)),
        ast::Expr::Unary(u) => dn_expr(*u.operand),
        ast::Expr::If(i) => dn_expr(*i.condition).union(dn_block(*i.then_branch)).union(match i.else_branch { Some(x) => dn_block(*x), None => Set::<usize>::empty() }),
        ast::Expr::Block(b) => dn_stmts(b.stmts@),
        ast::Expr::Match(m) => dn_expr(*m.value).union(dn_match_arms(m.arms@)),
        ast::Expr::Let(_) => Set::<usize>::empty(),
        ast::Expr::Paren(x) => dn_expr(*x),
        ast::Expr::Error => Set::<usize>::empty(),
    }
}

pub open spec fn dn_items(s: Seq<AstNode<ast::Item>>) -> Set<usize>
    decreases s,
{
    if s.len() == 0 {
        Set::<usize>::empty()
    } else {
        dn_items(s.drop_last()).union(dn_item(s.last()))
    }
}

pub open spec fn dn_generic_params(s: Seq<AstNode<ast::GenericParam>>) -> Set<usize>
    decreases s,
{
    if s.len() == 0 {
        Set::<usize>::empty()
    } else {
        dn_generic_params(s.drop_last()).union(dn_generic_param(s.last()))
    }
}

pub open spec fn dn_params(s: Seq<AstNode<ast::Param>>) -> Set<usize>
    decreases s,
{
    if s.len() == 0 {
        Set::<usize>::empty()
    } else {
        dn_params(s.drop_last()).union(dn_param(s.last()))
    }
}

pub open spec fn dn_enum_variants(s: Seq<AstNode<ast::EnumVariant>>) -> Set<usize>
    decreases s,
{
    if s.len() == 0 {
        Set::<usize>::empty()
    } else {
        dn_enum_variants(s.drop_last()).union(dn_enum_variant(s.last()))
    }
}

pub open spec fn dn_struct_fields(s: Seq<AstNode<ast::StructFieldDef>>) -> Set<usize>
    decreases s,
{
    if s.len() == 0 {
        Set::<usize>::empty()
    } else {
        dn_struct_fields(s.drop_last()).union(dn_struct_field(s.last()))
    }
}

pub open spec fn dn_assoc_items(s: Seq<AstNode<ast::AssociatedItem>>) -> Set<usize>
    decreases s,
{
    if s.len() == 0 {
        Set::<usize>::empty()
    } else {
        dn_assoc_items(s.drop_last()).union(dn_assoc_item(s.last()))
    }
}

pub open spec fn dn_paths(s: Seq<AstNode<ast::Path>>) -> Set<usize>
    decreases s,
{
    if s.len() == 0 {
        Set::<usize>::empty()
    } else {
        dn_paths(s.drop_last()).union(dn_path(s.last()))
    }
}

pub open spec fn dn_path_segments(s: Seq<AstNode<ast::PathSegment>>) -> Set<usize>
    decreases s,
{
    if s.len() == 0 {
        Set::<usize>::empty()
    } else {
        dn_path_segments(s.drop_last()).union(dn_path_segment(s.last()))
    }
}

pub open spec fn dn_generic_args(s: Seq<AstNode<ast::GenericArg>>) -> Set<usize>
    decreases s,
{
    if s.len() == 0 {
        Set::<usize>::empty()
    } else {
        dn_generic_args(s.drop_last()).union(dn_generic_arg(s.last()))
    }
}

pub open spec fn dn_struct_expr_fields(s: Seq<AstNode<ast::StructExprField>>) -> Set<usize>
    decreases s,
{
    if s.len() == 0 {
        Set::<usize>::empty()
    } else {
        dn_struct_expr_fields(s.drop_last()).union(dn_struct_expr_field(s.last()))
    }
}

pub open spec fn dn_stmts(s: Seq<AstNode<ast::Stmt>>) -> Set<usize>
    decreases s,
{
    if s.len() == 0 {
        Set::<usize>::empty()
    } else {
        dn_stmts(s.drop_last()).union(dn_stmt(s.last()))
    }
}

pub open spec fn dn_tys(s: Seq<AstNode<ast::Ty>>) -> Set<usize>
    decreases s,
{
    if s.len() == 0 {
        Set::<usize>::empty()
    } else {
        dn_tys(s.drop_last()).union(dn_ty(s.last()))
    }
}

pub open spec fn dn_patterns(s: Seq<AstNode<ast::Pattern>>) -> Set<usize>
    decreases s,
{
    if s.len() == 0 {
        Set::<usize>::empty()
    } else {
        dn_patterns(s.drop_last()).union(dn_pattern(s.last()))
    }
}

pub open spec fn dn_pattern_fields(s: Seq<AstNode<ast::PatternStructField>>) -> Set<usize>
    decreases s,
{
    if s.len() == 0 {
        Set::<usize>::empty()
    } else {
        dn_pattern_fields(s.drop_last()).union(dn_pattern_field(s.last()))
    }
}

pub open spec fn dn_match_arms(s: Seq<AstNode<ast::MatchArm>>) -> Set<usize>
    decreases s,
{
    if s.len() == 0 {
        Set::<usize>::empty()
    } else {
        dn_match_arms(s.drop_last()).union(dn_match_arm(s.last()))
    }
}

pub open spec fn dn_exprs(s: Seq<AstNode<ast::Expr>>) -> Set<usize>
    decreases s,
{
    if s.len() == 0 {
        Set::<usize>::empty()
    } else {
        dn_exprs(s.drop_last()).union(dn_expr(s.last()))
    }
}

/// What a walk that collects the definitions of the nodes `s` does to the
/// definition map: fresh ids only grow, definitions made before stay, the
/// nodes it maps to a definition are those mapped before and those of `s`,
/// the others keep their definition, resolutions are left alone, and, unless
/// the fresh ids ran out, each node of `s` is mapped to a definition made
/// during the walk.
pub open spec fn defs_collected(before: DefinitionMap, after: DefinitionMap, s: Set<usize>) -> bool {
    &&& before.next_id() <= after.next_id()
    &&& after.resolutions_view() == before.resolutions_view()
    &&& after.partial_res_view() == before.partial_res_view()
    &&& forall|j: usize| #[trigger] before.definitions_view().contains_key(j)
        ==> after.definitions_view().contains_key(j) && after.definitions_view()[j] == before.definitions_view()[j]
    &&& forall|k: usize| #[trigger] after.ast_to_def_view().contains_key(k)
        ==> before.ast_to_def_view().contains_key(k) || s.contains(k)
    &&& forall|k: usize| #[trigger] before.ast_to_def_view().contains_key(k) && !s.contains(k)
        ==> after.ast_to_def_view().contains_key(k) && after.ast_to_def_view()[k] == before.ast_to_def_view()[k]
    &&& after.next_id() < usize::MAX ==> forall|k: usize| #[trigger] s.contains(k)
        ==> after.ast_to_def_view().contains_key(k) && before.next_id() <= after.ast_to_def_view()[k].0 < after.next_id()
}

/// Gives a definition to every node of the syntax tree that defines
/// something: items, generic parameters, struct fields, enum variants and
/// associated items, in the order the tree is walked.
pub struct DefCollector {
    pub defs: DefinitionMap,
}

impl DefCollector {
    pub fn new(defs: DefinitionMap) -> (c: DefCollector)
        ensures
            c.defs == defs,
    {
        DefCollector { defs }
    }

    /// Walks the items of the crate.
    pub fn collect_crate(&mut self, krate: &ast::Crate)
        requires
            old(self).defs.wf(),
        ensures
            final(self).defs.wf(),
            defs_collected(old(self).defs, final(self).defs, dn_items(krate.items@)),
    {
        self.collect_item_list(&krate.items);
    }

    /// Gives the node `id` a fresh definition of the given kind (while
    /// fresh ids remain).
    fn register(&mut self, id: AstId, kind: DefKind)
        requires
            old(self).defs.wf(),
        ensures
            final(self).defs.wf(),
            old(self).defs.next_id() < usize::MAX ==> final(self).defs.ast_to_def_view()
                == old(self).defs.ast_to_def_view().insert(id.0, crate::resolver::defs::DefId(old(self).defs.next_id())),
            defs_collected(old(self).defs, final(self).defs, set![id.0]),
    {
        if self.defs.next_def_id().0 < usize::MAX {
            self.defs.insert(id, kind);
        }
    }

    fn collect_item(&mut self, node: &AstNode<ast::Item>)
        requires
            old(self).defs.wf(),
        ensures
            final(self).defs.wf(),
            defs_collected(old(self).defs, final(self).defs, dn_item(*node)),
        decreases node,
    {
        if let Some(kind) = def_kind_of(&node.node) {
            self.register(node.ast_id, kind);
        }
        match &node.node {
            ast::Item::Fn(f) => { self.collect_fn_sig(&f.sig); self.collect_block(&f.body); },
            ast::Item::Struct(s) => { self.collect_generic_param_list(&s.generics); self.collect_variant_data(&s.data); },
            ast::Item::Enum(e) => { self.collect_generic_param_list(&e.generics); self.collect_enum_variant_list(&e.variants); },
            ast::Item::Trait(t) => { self.collect_generic_param_list(&t.generics); self.collect_assoc_item_list(&t.items); },
            ast::Item::Mod(m) => { self.collect_item_list(&m.items); },
            ast::Item::Impl(i) => { self.collect_generic_param_list(&i.generics); self.collect_ty(&i.self_ty); match &i.for_trait { Some(x) => { self.collect_path(x); }, None => {} } self.collect_assoc_item_list(&i.items); },
            ast::Item::ExternFn(f) => { self.collect_fn_sig(&f.sig); },
            ast::Item::Const(k) => { self.collect_generic_param_list(&k.generics); match &k.type_annotation { Some(x) => { self.collect_ty(x); }, None => {} } self.collect_expr(&k.expr); },
            ast::Item::Use(u) => { self.collect_path(&u.path); },
            ast::Item::TyAlias(a) => { self.collect_generic_param_list(&a.generics); match &a.ty { Some(x) => { self.collect_ty(x); }, None => {} } },
            ast::Item::Error => {},
        }
    }

    fn collect_fn_sig(&mut self, node: &AstNode<ast::FnSig>)
        requires
            old(self).defs.wf(),
        ensures
            final(self).defs.wf(),
            defs_collected(old(self).defs, final(self).defs, dn_fn_sig(*node)),
        decreases node,
    {
        self.collect_generic_param_list(&node.node.generics); self.collect_param_list(&node.node.params); match &node.node.return_ty { Some(x) => { self.collect_ty(x); }, None => {} }
    }

    fn collect_generic_param(&mut self, node: &AstNode<ast::GenericParam>)
        requires
            old(self).defs.wf(),
        ensures
            final(self).defs.wf(),
            defs_collected(old(self).defs, final(self).defs, dn_generic_param(*node)),
        decreases node,
    {
        self.register(node.ast_id, DefKind::TypeParam);
        self.collect_path_list(&node.node.bounds);
    }

    fn collect_param(&mut self, node: &AstNode<ast::Param>)
        requires
            old(self).defs.wf(),
        ensures
            final(self).defs.wf(),
            defs_collected(old(self).defs, final(self).defs, dn_param(*node)),
        decreases node,
    {
        self.collect_pattern(&node.node.pattern); self.collect_ty(&node.node.type_annotation);
    }

    fn collect_variant_data(&mut self, node: &AstNode<ast::VariantData>)
        requires
            old(self).defs.wf(),
        ensures
            final(self).defs.wf(),
            defs_collected(old(self).defs, final(self).defs, dn_variant_data(*node)),
        decreases node,
    {
        match &node.node {
            ast::VariantData::Unit => {},
            ast::VariantData::Struct { fields } => { self.collect_struct_field_list(fields); },
            ast::VariantData::Tuple { types } => { self.collect_ty_list(types); },
        }
    }

    fn collect_enum_variant(&mut self, node: &AstNode<ast::EnumVariant>)
        requires
            old(self).defs.wf(),
        ensures
            final(self).defs.wf(),
            defs_collected(old(self).defs, final(self).defs, dn_enum_variant(*node)),
        decreases node,
    {
        self.register(node.ast_id, DefKind::EnumVariant);
        self.collect_variant_data(&node.node.data);
    }

    fn collect_struct_field(&mut self, node: &AstNode<ast::StructFieldDef>)
        requires
            old(self).defs.wf(),
        ensures
            final(self).defs.wf(),
            defs_collected(old(self).defs, final(self).defs, dn_struct_field(*node)),
        decreases node,
    {
        self.register(node.ast_id, DefKind::StructField);
        self.collect_ty(&node.node.type_annotation);
    }

    fn collect_assoc_item(&mut self, node: &AstNode<ast::AssociatedItem>)
        requires
            old(self).defs.wf(),
        ensures
            final(self).defs.wf(),
            defs_collected(old(self).defs, final(self).defs, dn_assoc_item(*node)),
        decreases node,
    {
        match &node.node {
            ast::AssociatedItem::Fn(sig, body) => { self.collect_fn_sig(sig); match body { Some(x) => { self.collect_block(x); }, None => {} } },
            ast::AssociatedItem::Type(alias) => { self.collect_generic_param_list(&alias.node.generics); match &alias.node.ty { Some(x) => { self.collect_ty(x); }, None => {} } },
        }
        let kind = match &node.node {
            ast::AssociatedItem::Fn(..) => DefKind::AssocFn,
            ast::AssociatedItem::Type(_) => DefKind::AssocTypeAlias,
        };
        self.register(node.ast_id, kind);
    }

    fn collect_path(&mut self, node: &AstNode<ast::Path>)
        requires
            old(self).defs.wf(),
        ensures
            final(self).defs.wf(),
            defs_collected(old(self).defs, final(self).defs, dn_path(*node)),
        decreases node,
    {
        self.collect_path_segment_list(&node.node.segments);
    }

    fn collect_path_segment(&mut self, node: &AstNode<ast::PathSegment>)
        requires
            old(self).defs.wf(),
        ensures
            final(self).defs.wf(),
            defs_collected(old(self).defs, final(self).defs, dn_path_segment(*node)),
        decreases node,
    {
        self.collect_generic_arg_list(&node.node.args);
    }

    fn collect_generic_arg(&mut self, node: &AstNode<ast::GenericArg>)
        requires
            old(self).defs.wf(),
        ensures
            final(self).defs.wf(),
            defs_collected(old(self).defs, final(self).defs, dn_generic_arg(*node)),
        decreases node,
    {
        match &node.node {
            ast::GenericArg::Type(t) => { self.collect_ty(t); },
            ast::GenericArg::Const(e) => { self.collect_expr(e); },
        }
    }

    fn collect_struct_expr_field(&mut self, node: &AstNode<ast::StructExprField>)
        requires
            old(self).defs.wf(),
        ensures
            final(self).defs.wf(),
            defs_collected(old(self).defs, final(self).defs, dn_struct_expr_field(*node)),
        decreases node,
    {
        self.collect_expr(&node.node.expr);
    }

    fn collect_stmt(&mut self, node: &AstNode<ast::Stmt>)
        requires
            old(self).defs.wf(),
        ensures
            final(self).defs.wf(),
            defs_collected(old(self).defs, final(self).defs, dn_stmt(*node)),
        decreases node,
    {
        match &node.node {
            ast::Stmt::Item(item) => { self.collect_item(item); },
            ast::Stmt::Let(l) => { self.collect_pattern(&l.pat); match &l.type_annotation { Some(x) => { self.collect_ty(x); }, None => {} } match &l.expr { Some(x) => { self.collect_expr(x); }, None => {} } },
            ast::Stmt::Expr(e) => { self.collect_expr(e); },
            ast::Stmt::Semi(e) => { self.collect_expr(e); },
            ast::Stmt::Error => {},
        }
    }

    fn collect_block(&mut self, node: &AstNode<ast::BlockExpr>)
        requires
            old(self).defs.wf(),
        ensures
            final(self).defs.wf(),
            defs_collected(old(self).defs, final(self).defs, dn_block(*node)),
        decreases node,
    {
        self.collect_block_stmts(node.ast_id, &node.node.stmts);
    }

    fn collect_ty(&mut self, node: &AstNode<ast::Ty>)
        requires
            old(self).defs.wf(),
        ensures
            final(self).defs.wf(),
            defs_collected(old(self).defs, final(self).defs, dn_ty(*node)),
        decreases node,
    {
        match &node.node {
            ast::Ty::Path(p) => { self.collect_path(p); },
            ast::Ty::Array(t, e) => { self.collect_ty(t); self.collect_expr(e); },
            ast::Ty::Ptr(t) => { self.collect_ty(t); },
            ast::Ty::Fn(params, ret) => { self.collect_ty_list(params); match &**ret { Some(r) => { self.collect_ty(r); }, None => {} } },
            ast::Ty::Tuple(tys) => { self.collect_ty_list(tys); },
        }
    }

    fn collect_pattern(&mut self, node: &AstNode<ast::Pattern>)
        requires
            old(self).defs.wf(),
        ensures
            final(self).defs.wf(),
            defs_collected(old(self).defs, final(self).defs, dn_pattern(*node)),
        decreases node,
    {
        match &node.node {
            ast::Pattern::Wildcard => {},
            ast::Pattern::Or(ps) => { self.collect_pattern_list(ps); },
            ast::Pattern::Path(p) => { self.collect_path(p); },
            ast::Pattern::Struct(p, fields) => { self.collect_path(p); self.collect_pattern_field_list(fields); },
            ast::Pattern::TupleStruct(p, ps) => { self.collect_path(p); self.collect_pattern_list(ps); },
            ast::Pattern::Tuple(ps) => { self.collect_pattern_list(ps); },
            ast::Pattern::Expr(e) => { self.collect_expr(e); },
            ast::Pattern::Paren(p) => { self.collect_pattern(p); },
        }
    }

    fn collect_pattern_field(&mut self, node: &AstNode<ast::PatternStructField>)
        requires
            old(self).defs.wf(),
        ensures
            final(self).defs.wf(),
            defs_collected(old(self).defs, final(self).defs, dn_pattern_field(*node)),
        decreases node,
    {
        self.collect_pattern(&node.node.pattern);
    }

    fn collect_match_arm(&mut self, node: &AstNode<ast::MatchArm>)
        requires
            old(self).defs.wf(),
        ensures
            final(self).defs.wf(),
            defs_collected(old(self).defs, final(self).defs, dn_match_arm(*node)),
        decreases node,
    {
        self.collect_pattern(&node.node.pattern); self.collect_expr(&node.node.body);
    }

    fn collect_expr(&mut self, node: &AstNode<ast::Expr>)
        requires
            old(self).defs.wf(),
        ensures
            final(self).defs.wf(),
            defs_collected(old(self).defs, final(self).defs, dn_expr(*node)),
        decreases node,
    {
        match &node.node {
            ast::Expr::Array(a) => { self.collect_expr_list(&a.expressions); },
            ast::Expr::Struct(s) => { self.collect_path(&s.name); self.collect_struct_expr_field_list(&s.fields); },
            ast::Expr::Call(x) => { self.collect_expr(&x.callee); self.collect_expr_list(&x.arguments); },
            ast::Expr::MethodCall(m) => { self.collect_path_segment(&m.name); self.collect_expr(&m.receiver); self.collect_expr_list(&m.arguments); },
            ast::Expr::Tuple(t) => { self.collect_expr_list(&t.expressions); },
            ast::Expr::Cast(x) => { self.collect_expr(&x.expr); self.collect_ty(&x.ty); },
            ast::Expr::Return(r) => { match &r.value { Some(x) => { self.collect_expr(x); }, None => {} } },
            ast::Expr::While(x) => { self.collect_expr(&x.condition); self.collect_block(&x.body); },
            ast::Expr::Loop(x) => { self.collect_block(&x.body); },
            ast::Expr::For(x) => { self.collect_pattern(&x.pattern); self.collect_expr(&x.iterator); self.collect_block(&x.body); },
            ast::Expr::Assign(x) => { self.collect_expr(&x.target); self.collect_expr(&x.value); },
            ast::Expr::AssignOp(x) => { self.collect_expr(&x.target); self.collect_expr(&x.value); },
            ast::Expr::FieldAccess(x) => { self.collect_expr(&x.target); },
            ast::Expr::Index(x) => { self.collect_expr(&x.target); self.collect_expr(&x.index); },
            ast::Expr::Path(p) => { self.collect_path(&p.path); },
            ast::Expr::AddrOf(x) => { self.collect_expr(&x.expr); },
            ast::Expr::Break(b) => { match &b.expr { Some(x) => { self.collect_expr(x); }, None => {} } },
            ast::Expr::Continue => {},
            ast::Expr::Literal(_) => {},
            ast::Expr::Binary(b) => { self.collect_expr(&b.left); self.collect_expr(&b.right); },
            ast::Expr::Unary(u) => { self.collect_expr(&u.operand); },
            ast::Expr::If(i) => { self.collect_expr(&i.condition); self.collect_block(&i.then_branch); match &i.else_branch { Some(b) => { self.collect_block(b); }, None => {} } },
            ast::Expr::Block(b) => { self.collect_block_stmts(node.ast_id, &b.stmts); },
            ast::Expr::Match(m) => { self.collect_expr(&m.value); self.collect_match_arm_list(&m.arms); },
            ast::Expr::Let(_) => {},
            ast::Expr::Paren(x) => { self.collect_expr(x); },
            ast::Expr::Error => {},
        }
    }

    fn collect_item_list(&mut self, v: &Vec<AstNode<ast::Item>>)
        requires
            old(self).defs.wf(),
        ensures
            final(self).defs.wf(),
            defs_collected(old(self).defs, final(self).defs, dn_items(v@)),
        decreases v,
    {
        let ghost start = self.defs;
        let mut i: usize = 0;
        while i < v.len()
            invariant
                i <= v.len(),
                self.defs.wf(),
                defs_collected(start, self.defs, dn_items(v@.take(i as int))),
            decreases v.len() - i,
        {
            proof {
                assert(decreases_to!(*v => v[i as int]));
            }
            self.collect_item(&v[i]);
            proof {
                assert(v@.take(i as int + 1).drop_last() =~= v@.take(i as int));
            }
            i = i + 1;
        }
        proof {
            assert(v@.take(v.len() as int) =~= v@);
        }
    }

    fn collect_generic_param_list(&mut self, v: &Vec<AstNode<ast::GenericParam>>)
        requires
            old(self).defs.wf(),
        ensures
            final(self).defs.wf(),
            defs_collected(old(self).defs, final(self).defs, dn_generic_params(v@)),
        decreases v,
    {
        let ghost start = self.defs;
        let mut i: usize = 0;
        while i < v.len()
            invariant
                i <= v.len(),
                self.defs.wf(),
                defs_collected(start, self.defs, dn_generic_params(v@.take(i as int))),
            decreases v.len() - i,
        {
            proof {
                assert(decreases_to!(*v => v[i as int]));
            }
            self.collect_generic_param(&v[i]);
            proof {
                assert(v@.take(i as int + 1).drop_last() =~= v@.take(i as int));
            }
            i = i + 1;
        }
        proof {
            assert(v@.take(v.len() as int) =~= v@);
        }
    }

    fn collect_param_list(&mut self, v: &Vec<AstNode<ast::Param>>)
        requires
            old(self).defs.wf(),
        ensures
            final(self).defs.wf(),
            defs_collected(old(self).defs, final(self).defs, dn_params(v@)),
        decreases v,
    {
        let ghost start = self.defs;
        let mut i: usize = 0;
        while i < v.len()
            invariant
                i <= v.len(),
                self.defs.wf(),
                defs_collected(start, self.defs, dn_params(v@.take(i as int))),
            decreases v.len() - i,
        {
            proof {
                assert(decreases_to!(*v => v[i as int]));
            }
            self.collect_param(&v[i]);
            proof {
                assert(v@.take(i as int + 1).drop_last() =~= v@.take(i as int));
            }
            i = i + 1;
        }
        proof {
            assert(v@.take(v.len() as int) =~= v@);
        }
    }

    fn collect_enum_variant_list(&mut self, v: &Vec<AstNode<ast::EnumVariant>>)
        requires
            old(self).defs.wf(),
        ensures
            final(self).defs.wf(),
            defs_collected(old(self).defs, final(self).defs, dn_enum_variants(v@)),
        decreases v,
    {
        let ghost start = self.defs;
        let mut i: usize = 0;
        while i < v.len()
            invariant
                i <= v.len(),
                self.defs.wf(),
                defs_collected(start, self.defs, dn_enum_variants(v@.take(i as int))),
            decreases v.len() - i,
        {
            proof {
                assert(decreases_to!(*v => v[i as int]));
            }
            self.collect_enum_variant(&v[i]);
            proof {
                assert(v@.take(i as int + 1).drop_last() =~= v@.take(i as int));
            }
            i = i + 1;
        }
        proof {
            assert(v@.take(v.len() as int) =~= v@);
        }
    }

    fn collect_struct_field_list(&mut self, v: &Vec<AstNode<ast::StructFieldDef>>)
        requires
            old(self).defs.wf(),
        ensures
            final(self).defs.wf(),
            defs_collected(old(self).defs, final(self).defs, dn_struct_fields(v@)),
        decreases v,
    {
        let ghost start = self.defs;
        let mut i: usize = 0;
        while i < v.len()
            invariant
                i <= v.len(),
                self.defs.wf(),
                defs_collected(start, self.defs, dn_struct_fields(v@.take(i as int))),
            decreases v.len() - i,
        {
            proof {
                assert(decreases_to!(*v => v[i as int]));
            }
            self.collect_struct_field(&v[i]);
            proof {
                assert(v@.take(i as int + 1).drop_last() =~= v@.take(i as int));
            }
            i = i + 1;
        }
        proof {
            assert(v@.take(v.len() as int) =~= v@);
        }
    }

    fn collect_assoc_item_list(&mut self, v: &Vec<AstNode<ast::AssociatedItem>>)
        requires
            old(self).defs.wf(),
        ensures
            final(self).defs.wf(),
            defs_collected(old(self).defs, final(self).defs, dn_assoc_items(v@)),
        decreases v,
    {
        let ghost start = self.defs;
        let mut i: usize = 0;
        while i < v.len()
            invariant
                i <= v.len(),
                self.defs.wf(),
                defs_collected(start, self.defs, dn_assoc_items(v@.take(i as int))),
            decreases v.len() - i,
        {
            proof {
                assert(decreases_to!(*v => v[i as int]));
            }
            self.collect_assoc_item(&v[i]);
            proof {
                assert(v@.take(i as int + 1).drop_last() =~= v@.take(i as int));
            }
            i = i + 1;
        }
        proof {
            assert(v@.take(v.len() as int) =~= v@);
        }
    }

    fn collect_path_list(&mut self, v: &Vec<AstNode<ast::Path>>)
        requires
            old(self).defs.wf(),
        ensures
            final(self).defs.wf(),
            defs_collected(old(self).defs, final(self).defs, dn_paths(v@)),
        decreases v,
    {
        let ghost start = self.defs;
        let mut i: usize = 0;
        while i < v.len()
            invariant
                i <= v.len(),
                self.defs.wf(),
                defs_collected(start, self.defs, dn_paths(v@.take(i as int))),
            decreases v.len() - i,
        {
            proof {
                assert(decreases_to!(*v => v[i as int]));
            }
            self.collect_path(&v[i]);
            proof {
                assert(v@.take(i as int + 1).drop_last() =~= v@.take(i as int));
            }
            i = i + 1;
        }
        proof {
            assert(v@.take(v.len() as int) =~= v@);
        }
    }

    fn collect_path_segment_list(&mut self, v: &Vec<AstNode<ast::PathSegment>>)
        requires
            old(self).defs.wf(),
        ensures
            final(self).defs.wf(),
            defs_collected(old(self).defs, final(self).defs, dn_path_segments(v@)),
        decreases v,
    {
        let ghost start = self.defs;
        let mut i: usize = 0;
        while i < v.len()
            invariant
                i <= v.len(),
                self.defs.wf(),
                defs_collected(start, self.defs, dn_path_segments(v@.take(i as int))),
            decreases v.len() - i,
        {
            proof {
                assert(decreases_to!(*v => v[i as int]));
            }
            self.collect_path_segment(&v[i]);
            proof {
                assert(v@.take(i as int + 1).drop_last() =~= v@.take(i as int));
            }
            i = i + 1;
        }
        proof {
            assert(v@.take(v.len() as int) =~= v@);
        }
    }

    fn collect_generic_arg_list(&mut self, v: &Vec<AstNode<ast::GenericArg>>)
        requires
            old(self).defs.wf(),
        ensures
            final(self).defs.wf(),
            defs_collected(old(self).defs, final(self).defs, dn_generic_args(v@)),
        decreases v,
    {
        let ghost start = self.defs;
        let mut i: usize = 0;
        while i < v.len()
            invariant
                i <= v.len(),
                self.defs.wf(),
                defs_collected(start, self.defs, dn_generic_args(v@.take(i as int))),
            decreases v.len() - i,
        {
            proof {
                assert(decreases_to!(*v => v[i as int]));
            }
            self.collect_generic_arg(&v[i]);
            proof {
                assert(v@.take(i as int + 1).drop_last() =~= v@.take(i as int));
            }
            i = i + 1;
        }
        proof {
            assert(v@.take(v.len() as int) =~= v@);
        }
    }

    fn collect_struct_expr_field_list(&mut self, v: &Vec<AstNode<ast::StructExprField>>)
        requires
            old(self).defs.wf(),
        ensures
            final(self).defs.wf(),
            defs_collected(old(self).defs, final(self).defs, dn_struct_expr_fields(v@)),
        decreases v,
    {
        let ghost start = self.defs;
        let mut i: usize = 0;
        while i < v.len()
            invariant
                i <= v.len(),
                self.defs.wf(),
                defs_collected(start, self.defs, dn_struct_expr_fields(v@.take(i as int))),
            decreases v.len() - i,
        {
            proof {
                assert(decreases_to!(*v => v[i as int]));
            }
            self.collect_struct_expr_field(&v[i]);
            proof {
                assert(v@.take(i as int + 1).drop_last() =~= v@.take(i as int));
            }
            i = i + 1;
        }
        proof {
            assert(v@.take(v.len() as int) =~= v@);
        }
    }

    fn collect_stmt_list(&mut self, v: &Vec<AstNode<ast::Stmt>>)
        requires
            old(self).defs.wf(),
        ensures
            final(self).defs.wf(),
            defs_collected(old(self).defs, final(self).defs, dn_stmts(v@)),
        decreases v,
    {
        let ghost start = self.defs;
        let mut i: usize = 0;
        while i < v.len()
            invariant
                i <= v.len(),
                self.defs.wf(),
                defs_collected(start, self.defs, dn_stmts(v@.take(i as int))),
            decreases v.len() - i,
        {
            proof {
                assert(decreases_to!(*v => v[i as int]));
            }
            self.collect_stmt(&v[i]);
            proof {
                assert(v@.take(i as int + 1).drop_last() =~= v@.take(i as int));
            }
            i = i + 1;
        }
        proof {
            assert(v@.take(v.len() as int) =~= v@);
        }
    }

    fn collect_ty_list(&mut self, v: &Vec<AstNode<ast::Ty>>)
        requires
            old(self).defs.wf(),
        ensures
            final(self).defs.wf(),
            defs_collected(old(self).defs, final(self).defs, dn_tys(v@)),
        decreases v,
    {
        let ghost start = self.defs;
        let mut i: usize = 0;
        while i < v.len()
            invariant
                i <= v.len(),
                self.defs.wf(),
                defs_collected(start, self.defs, dn_tys(v@.take(i as int))),
            decreases v.len() - i,
        {
            proof {
                assert(decreases_to!(*v => v[i as int]));
            }
            self.collect_ty(&v[i]);
            proof {
                assert(v@.take(i as int + 1).drop_last() =~= v@.take(i as int));
            }
            i = i + 1;
        }
        proof {
            assert(v@.take(v.len() as int) =~= v@);
        }
    }

    fn collect_pattern_list(&mut self, v: &Vec<AstNode<ast::Pattern>>)
        requires
            old(self).defs.wf(),
        ensures
            final(self).defs.wf(),
            defs_collected(old(self).defs, final(self).defs, dn_patterns(v@)),
        decreases v,
    {
        let ghost start = self.defs;
        let mut i: usize = 0;
        while i < v.len()
            invariant
                i <= v.len(),
                self.defs.wf(),
                defs_collected(start, self.defs, dn_patterns(v@.take(i as int))),
            decreases v.len() - i,
        {
            proof {
                assert(decreases_to!(*v => v[i as int]));
            }
            self.collect_pattern(&v[i]);
            proof {
                assert(v@.take(i as int + 1).drop_last() =~= v@.take(i as int));
            }
            i = i + 1;
        }
        proof {
            assert(v@.take(v.len() as int) =~= v@);
        }
    }

    fn collect_pattern_field_list(&mut self, v: &Vec<AstNode<ast::PatternStructField>>)
        requires
            old(self).defs.wf(),
        ensures
            final(self).defs.wf(),
            defs_collected(old(self).defs, final(self).defs, dn_pattern_fields(v@)),
        decreases v,
    {
        let ghost start = self.defs;
        let mut i: usize = 0;
        while i < v.len()
            invariant
                i <= v.len(),
                self.defs.wf(),
                defs_collected(start, self.defs, dn_pattern_fields(v@.take(i as int))),
            decreases v.len() - i,
        {
            proof {
                assert(decreases_to!(*v => v[i as int]));
            }
            self.collect_pattern_field(&v[i]);
            proof {
                assert(v@.take(i as int + 1).drop_last() =~= v@.take(i as int));
            }
            i = i + 1;
        }
        proof {
            assert(v@.take(v.len() as int) =~= v@);
        }
    }

    fn collect_match_arm_list(&mut self, v: &Vec<AstNode<ast::MatchArm>>)
        requires
            old(self).defs.wf(),
        ensures
            final(self).defs.wf(),
            defs_collected(old(self).defs, final(self).defs, dn_match_arms(v@)),
        decreases v,
    {
        let ghost start = self.defs;
        let mut i: usize = 0;
        while i < v.len()
            invariant
                i <= v.len(),
                self.defs.wf(),
                defs_collected(start, self.defs, dn_match_arms(v@.take(i as int))),
            decreases v.len() - i,
        {
            proof {
                assert(decreases_to!(*v => v[i as int]));
            }
            self.collect_match_arm(&v[i]);
            proof {
                assert(v@.take(i as int + 1).drop_last() =~= v@.take(i as int));
            }
            i = i + 1;
        }
        proof {
            assert(v@.take(v.len() as int) =~= v@);
        }
    }

    fn collect_expr_list(&mut self, v: &Vec<AstNode<ast::Expr>>)
        requires
            old(self).defs.wf(),
        ensures
            final(self).defs.wf(),
            defs_collected(old(self).defs, final(self).defs, dn_exprs(v@)),
        decreases v,
    {
        let ghost start = self.defs;
        let mut i: usize = 0;
        while i < v.len()
            invariant
                i <= v.len(),
                self.defs.wf(),
                defs_collected(start, self.defs, dn_exprs(v@.take(i as int))),
            decreases v.len() - i,
        {
            proof {
                assert(decreases_to!(*v => v[i as int]));
            }
            self.collect_expr(&v[i]);
            proof {
                assert(v@.take(i as int + 1).drop_last() =~= v@.take(i as int));
            }
            i = i + 1;
        }
        proof {
            assert(v@.take(v.len() as int) =~= v@);
        }
    }

    fn collect_block_stmts(&mut self, id: AstId, v: &Vec<AstNode<ast::Stmt>>)
        requires
            old(self).defs.wf(),
        ensures
            final(self).defs.wf(),
            defs_collected(old(self).defs, final(self).defs, dn_stmts(v@)),
        decreases v,
    {
        
        let ghost start = self.defs;
        let mut i: usize = 0;
        while i < v.len()
            invariant
                i <= v.len(),
                self.defs.wf(),
                defs_collected(start, self.defs, dn_stmts(v@.take(i as int))),
            decreases v.len() - i,
        {
            proof {
                assert(decreases_to!(*v => v[i as int]));
            }
            self.collect_stmt(&v[i]);
            proof {
                assert(v@.take(i as int + 1).drop_last() =~= v@.take(i as int));
            }
            i = i + 1;
        }
        proof {
            assert(v@.take(v.len() as int) =~= v@);
        }
        
    }
}

} // verus!
