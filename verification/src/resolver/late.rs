use crate::parser::ast;
use crate::parser::ast::{AstId, AstNode, Ident};
use crate::resolver::defs::{DefId, DefKind, DefinitionMap};
use crate::resolver::error::ResolverError;
use crate::resolver::imports::{kw_crate, kw_self, kw_super};
use crate::resolver::module_builder::clone_ident;
use crate::resolver::modules::{Binding, ModuleId, ModuleKind};
use crate::resolver::names::NameTable;
use crate::resolver::resolver::Resolver;
use crate::resolver::ribs::{spec_prim_ty_from_name, PrimTy, Res, Rib, RibKind, SelfTyInfo};
use crate::span::Span;
use crate::strings::{join_path, push_string, string_is};
use vstd::prelude::*;

verus! {

broadcast use vstd::std_specs::hash::group_hash_axioms;

/// Where a pattern stands: in a `match` arm (or `let` expression) a
/// single name may name a constructor, elsewhere it always binds.
#[derive(Clone, Copy, Debug, PartialEq, Eq, Structural)]
pub enum PatternSource {
    Match,
    Normal,
}

pub open spec fn kw_self_ty() -> Seq<char> {
    seq!['S', 'e', 'l', 'f']
}

/// The ribs are there and well formed.
pub open spec fn ribs_ok(ribs: Seq<Rib>) -> bool {
    &&& ribs.len() >= 1
    &&& forall|i: int| 0 <= i < ribs.len() ==> (#[trigger] ribs[i]).wf()
}

/// What a name is bound to in the ribs, the innermost rib first.
pub open spec fn spec_lookup_ribs(ribs: Seq<Rib>, name: Seq<char>) -> Option<Res<AstId>>
    decreases ribs.len(),
{
    if ribs.len() == 0 {
        None
    } else if ribs.last().symbols().contains_key(name) {
        Some(ribs.last().symbols()[name])
    } else {
        spec_lookup_ribs(ribs.drop_last(), name)
    }
}

/// What a definition resolves to, with its kind.
pub open spec fn res_of_def(r: &Resolver, d: DefId) -> Res<AstId> {
    if r.defs.definitions_view().contains_key(d.0) {
        Res::Def(d, r.defs.definitions_view()[d.0].kind)
    } else {
        Res::Error
    }
}

/// What a name is bound to in module `m` or, failing that, in the modules
/// around it. A name bound to a module or an import resolves to an error.
pub open spec fn spec_lookup_modules(r: &Resolver, name: Seq<char>, m: ModuleId) -> Option<Res<AstId>>
    decreases m.0,
{
    let module = r.module_arena.modules_view()[m.0 as int];
    if module.items().contains_key(name) {
        match module.items()[name] {
            Binding::Item(d) => Some(res_of_def(r, d)),
            _ => Some(Res::Error),
        }
    } else {
        match module.spec_parent() {
            Some(p) => if p.0 < m.0 {
                spec_lookup_modules(r, name, p)
            } else {
                None
            },
            None => None,
        }
    }
}

/// What a value name resolves to: a local binding, an item in scope, or a
/// primitive type.
pub open spec fn spec_lookup_value(r: &Resolver, ribs: Seq<Rib>, name: Seq<char>, parent: ModuleId) -> Option<Res<AstId>> {
    match spec_lookup_ribs(ribs, name) {
        Some(res) => Some(res),
        None => match spec_lookup_modules(r, name, parent) {
            Some(res) => Some(res),
            None => match spec_prim_ty_from_name(name) {
                Some(p) => Some(Res::PrimTy(p)),
                None => None,
            },
        },
    }
}

/// The binding of a name in module `m`, looking through the blocks around
/// it up to the nearest module that is no block.
pub open spec fn spec_resolve_ident_in_module(r: &Resolver, name: Seq<char>, m: ModuleId) -> Option<Binding>
    decreases m.0,
{
    let module = r.module_arena.modules_view()[m.0 as int];
    if module.items().contains_key(name) {
        Some(module.items()[name])
    } else {
        match module.spec_kind() {
            ModuleKind::Block => match module.spec_parent() {
                Some(p) => if p.0 < m.0 {
                    spec_resolve_ident_in_module(r, name, p)
                } else {
                    None
                },
                None => None,
            },
            ModuleKind::Def(_) => None,
        }
    }
}

/// Whether a definition of this kind may have a path go on after it.
pub open spec fn is_type_like(kind: DefKind) -> bool {
    kind == DefKind::TypeParam || kind == DefKind::Struct || kind == DefKind::Enum || kind
        == DefKind::TypeAlias || kind == DefKind::Trait
}

fn ident_is(ident: &Ident, lit: &[char]) -> (r: bool)
    ensures
        r == (ident.name@ == lit@),
{
    string_is(&ident.name, lit)
}

/// The nearest module, from `m` outward, that is no block.
pub open spec fn nearest_item_module(r: &Resolver, m: ModuleId) -> ModuleId
    decreases m.0,
{
    let module = r.module_arena.modules_view()[m.0 as int];
    match module.spec_kind() {
        ModuleKind::Block => match module.spec_parent() {
            Some(p) => if p.0 < m.0 {
                nearest_item_module(r, p)
            } else {
                m
            },
            None => m,
        },
        _ => m,
    }
}

/// The `super` segments from `skip` on, each one module up from `m`: the
/// module reached and the index of the first other segment, or the index
/// of the segment that would go above the root.
pub open spec fn spec_supers(r: &Resolver, segments: Seq<AstNode<ast::PathSegment>>, skip: int, m: ModuleId) -> Result<(ModuleId, int), int>
    decreases segments.len() - skip,
{
    if 0 <= skip < segments.len() && segments[skip].node.ident.node.name@ == kw_super() {
        match r.module_arena.modules_view()[m.0 as int].spec_parent() {
            Some(p) => spec_supers(r, segments, skip + 1, p),
            None => Err(skip),
        }
    } else {
        Ok((m, skip))
    }
}

/// Where a path starts, inside module `parent`, and how many of its
/// segments that takes; or the index of the `super` that goes above the
/// root.
pub open spec fn spec_first_segment(r: &Resolver, segments: Seq<AstNode<ast::PathSegment>>, parent: ModuleId) -> Result<(ModuleId, int), int> {
    let first = segments[0].node.ident.node.name@;
    if first == kw_crate() {
        Ok((r.module_arena.spec_root_id(), 1))
    } else if first == kw_self() {
        Ok((parent, 1))
    } else if first != kw_super() {
        Ok((parent, 0))
    } else {
        match r.module_arena.modules_view()[nearest_item_module(r, parent).0 as int].spec_parent() {
            Some(p) => spec_supers(r, segments, 1, p),
            None => Err(0),
        }
    }
}

/// The item that a binding stands for: the item itself, or what an import
/// resolved to if that is an item.
pub open spec fn spec_item_of_binding(r: &Resolver, b: Binding) -> Option<DefId> {
    match b {
        Binding::Item(d) => Some(d),
        Binding::Module(_) => None,
        Binding::Import(i) => match r.module_arena.imports_view()[i.0 as int].resolved_binding {
            Some(Binding::Item(d)) => Some(d),
            _ => None,
        },
    }
}

/// How resolving a path ends.
pub enum PathEnd {
    /// The path is reported unresolved.
    Unresolved,
    /// The path is recorded as naming the definition.
    Record(DefId),
    /// The path resolves to `Res` and is recorded as naming the definition.
    ResolveAndRecord(Res<AstId>, DefId),
}

/// Walking the segments from `i` on, from module `current`: a module goes
/// on to the next segment; an item ends the path, where it must be the
/// last segment or a type-like item (a path through an import is only
/// recorded); the end of the path names the module's item, unless the
/// module is a block.
pub open spec fn spec_walk_path(r: &Resolver, segments: Seq<AstNode<ast::PathSegment>>, i: int, current: ModuleId) -> PathEnd
    decreases segments.len() - i,
{
    if !(0 <= i < segments.len()) {
        match r.module_arena.modules_view()[current.0 as int].spec_kind() {
            ModuleKind::Def(d) => PathEnd::Record(d),
            ModuleKind::Block => PathEnd::Unresolved,
        }
    } else {
        match spec_resolve_ident_in_module(r, segments[i].node.ident.node.name@, current) {
            None => PathEnd::Unresolved,
            Some(b) => match b {
                Binding::Module(m) => spec_walk_path(r, segments, i + 1, m),
                _ => match spec_item_of_binding(r, b) {
                    None => PathEnd::Unresolved,
                    Some(d) => if i + 1 < segments.len() {
                        if r.defs.definitions_view().contains_key(d.0) && is_type_like(
                            r.defs.definitions_view()[d.0].kind,
                        ) {
                            PathEnd::Record(d)
                        } else {
                            PathEnd::Unresolved
                        }
                    } else if b is Import {
                        PathEnd::Record(d)
                    } else {
                        PathEnd::ResolveAndRecord(res_of_def(r, d), d)
                    },
                },
            },
        }
    }
}

/// `new` records that node `id` names definition `d`, if `d` is defined.
pub open spec fn def_recorded(old: &Resolver, new: &Resolver, id: AstId, d: DefId) -> bool {
    &&& new.defs.definitions_view() == old.defs.definitions_view()
    &&& new.defs.partial_res_view() == old.defs.partial_res_view()
    &&& new.defs.ast_to_def_view() == if old.defs.definitions_view().contains_key(d.0) {
        old.defs.ast_to_def_view().insert(id.0, d)
    } else {
        old.defs.ast_to_def_view()
    }
}

/// `new` is `old` once the path has ended as `end`.
pub open spec fn path_end_applied(old: &Resolver, new: &Resolver, path: AstNode<ast::Path>, end: PathEnd) -> bool {
    match end {
        PathEnd::Unresolved => {
            &&& new.defs == old.defs
            &&& new.errors@.len() == old.errors@.len() + 1
            &&& is_unresolved_path_error(new.errors@.last(), path)
            &&& new.errors@.drop_last() == old.errors@
        },
        PathEnd::Record(d) => {
            &&& new.errors == old.errors
            &&& new.defs.resolutions_view() == old.defs.resolutions_view()
            &&& def_recorded(old, new, path.ast_id, d)
        },
        PathEnd::ResolveAndRecord(res, d) => {
            &&& new.errors == old.errors
            &&& new.defs.resolutions_view() == old.defs.resolutions_view().insert(path.ast_id.0, res)
            &&& def_recorded(old, new, path.ast_id, d)
        },
    }
}

/// What resolving a pattern that is a single name does: `Self` is
/// reported; in a `match`, a name that resolves to a definition names it;
/// otherwise the name is bound, in the innermost rib and among the
/// pattern's bindings, to the pattern node, and a name bound twice in one
/// pattern is reported when the innermost rib binds it already.
pub open spec fn name_pattern_resolved(
    old: &Resolver,
    new: &Resolver,
    old_bindings: Map<Seq<char>, ()>,
    new_bindings: Map<Seq<char>, ()>,
    old_ribs: Seq<Rib>,
    new_ribs: Seq<Rib>,
    pattern_id: AstId,
    path: AstNode<ast::Path>,
    source: PatternSource,
    parent: ModuleId,
) -> bool {
    let name = path.node.segments@[0].node.ident;
    if name.node.name@ == kw_self_ty() {
        &&& new.defs == old.defs
        &&& new_ribs == old_ribs
        &&& new_bindings == old_bindings
        &&& new.errors@ == old.errors@.push(ResolverError::SelfAsBinding { span: name.span })
    } else {
        match if source == PatternSource::Match {
            spec_lookup_value(old, old_ribs, name.node.name@, parent)
        } else {
            None
        } {
            Some(Res::Def(d, _)) => {
                &&& new.errors == old.errors
                &&& new_ribs == old_ribs
                &&& new_bindings == old_bindings
                &&& new.defs.resolutions_view() == old.defs.resolutions_view()
                &&& def_recorded(old, new, path.ast_id, d)
            },
            _ => {
                &&& new_bindings == old_bindings.insert(name.node.name@, ())
                &&& new_ribs.len() == old_ribs.len()
                &&& new_ribs.drop_last() == old_ribs.drop_last()
                &&& new_ribs.last().symbols() == old_ribs.last().symbols().insert(
                    name.node.name@,
                    Res::Local(pattern_id),
                )
                &&& new.defs.resolutions_view() == old.defs.resolutions_view().insert(path.ast_id.0, Res::Local(pattern_id))
                &&& new.defs.ast_to_def_view() == old.defs.ast_to_def_view()
                &&& new.defs.definitions_view() == old.defs.definitions_view()
                &&& if old_bindings.contains_key(name.node.name@) && old_ribs.last().symbols().contains_key(
                    name.node.name@,
                ) {
                    &&& new.errors@.len() == old.errors@.len() + 1
                    &&& new.errors@.drop_last() == old.errors@
                    &&& new.errors@.last() matches ResolverError::DuplicateDefinition { span, name: n }
                    &&& span == name.span
                    &&& n@ == name.node.name@
                } else {
                    new.errors == old.errors
                }
            },
        }
    }
}

/// The definition a type names: a path of one name names what that name
/// is bound to among the modules, when that is a definition; otherwise the
/// path names the definition recorded for its node, if any.
pub open spec fn spec_def_from_ty(r: &Resolver, ty: AstNode<ast::Ty>, parent: ModuleId) -> Option<DefId> {
    match ty.node {
        ast::Ty::Path(path) => {
            let by_name = if path.node.segments@.len() == 1 {
                spec_lookup_modules(r, path.node.segments@[0].node.ident.node.name@, parent)
            } else {
                None
            };
            match by_name {
                Some(Res::Def(d, _)) => Some(d),
                _ => if r.defs.ast_to_def_view().contains_key(path.ast_id.0) {
                    Some(r.defs.ast_to_def_view()[path.ast_id.0])
                } else {
                    None
                },
            }
        },
        _ => None,
    }
}

/// What resolving a path does: a path of one plain name is looked up as a
/// value and recorded or reported; an empty path changes nothing; otherwise
/// the first segment is resolved (`super` past the root is reported) and the
/// rest of the path is walked from there, its end recorded or reported.
pub open spec fn path_resolved(old: &Resolver, new: &Resolver, path: AstNode<ast::Path>, ribs: Seq<Rib>, parent: ModuleId) -> bool {
    &&& ((path.node.segments@.len() == 1 && segments_start_plain(path.node.segments@)) ==> match spec_lookup_value(
                old,
                ribs,
                path.node.segments@[0].node.ident.node.name@,
                parent,
            ) {
                Some(res) => new.defs.resolutions_view() == old.defs.resolutions_view().insert(
                    path.ast_id.0,
                    res,
                ) && new.errors == old.errors,
                None => new.defs == old.defs && new.errors@.len() == old.errors@.len() + 1 && new.errors@.drop_last()
                    == old.errors@ && is_unresolved_path_error(new.errors@.last(), path),
            })
    &&& (path.node.segments@.len() == 0 ==> *new == *old)
    &&& (path.node.segments@.len() > 0 ==> match spec_first_segment(old, path.node.segments@, parent) {
                Err(k) => new.defs == old.defs && new.errors@ == old.errors@.push(
                    ResolverError::SuperBeyondRoot { span: path.node.segments@[k].span },
                ),
                Ok((m, start)) => (path.node.segments@.len() == 1 && start == 0) || path_end_applied(
                    old,
                    new,
                    path,
                    spec_walk_path(old, path.node.segments@, start, m),
                ),
            })
}

/// What a walk does to the errors while no `Self` type is in scope: it
/// only adds errors, and reports each `Self` path of `s`.
pub open spec fn self_paths_reported(before: Seq<ResolverError>, after: Seq<ResolverError>, s: Set<Span>) -> bool {
    &&& before.len() <= after.len()
    &&& forall|i: int| 0 <= i < before.len() ==> after[i] == #[trigger] before[i]
    &&& forall|sp: Span| #[trigger] s.contains(sp) ==> after.contains(ResolverError::SelfOutsideImpl { span: sp })
}

/// Errors that one sequence begins with stay where they are.
pub proof fn lemma_prefix_kept(a: Seq<ResolverError>, b: Seq<ResolverError>)
    requires
        a.is_prefix_of(b),
    ensures
        self_paths_reported(a, b, Set::<Span>::empty()),
{
    assert forall|i: int| 0 <= i < a.len() implies b[i] == #[trigger] a[i] by {
        assert(b.subrange(0, a.len() as int)[i] == b[i]);
    }
}

/// Adding an error keeps what was reported.
pub proof fn lemma_reported_push(before: Seq<ResolverError>, errors: Seq<ResolverError>, e: ResolverError, s: Set<Span>)
    requires
        self_paths_reported(before, errors, s),
    ensures
        self_paths_reported(before, errors.push(e), s),
{
    assert forall|sp: Span| #[trigger] s.contains(sp) implies errors.push(e).contains(
        ResolverError::SelfOutsideImpl { span: sp },
    ) by {
        let j = choose|j: int| 0 <= j < errors.len() && errors[j] == ResolverError::SelfOutsideImpl { span: sp };
        assert(errors.push(e)[j] == errors[j]);
    }
}

// The `Self` paths that a walk reaches without entering an item that
// brings a `Self` type into scope (a struct, enum, type alias, trait or
// impl), each by the span of its first segment. A path that is not a
// `Self` path is resolved without a walk over its generic arguments, and a
// pattern's paths are resolved, not walked.

pub open spec fn sp_item(n: AstNode<ast::Item>) -> Set<Span>
    decreases n,
{
    match n.node {
        ast::Item::Fn(x) => sp_fn_sig(x.sig).union(sp_block(x.body)),
        ast::Item::Mod(x) => sp_items(x.items@),
        ast::Item::ExternFn(x) => sp_fn_sig(x.sig),
        ast::Item::Const(x) => sp_generic_params(x.generics@).union(match x.type_annotation { Some(x) => sp_ty(x), None => Set::<Span>::empty() }).union(sp_expr(x.expr)),
        ast::Item::Use(x) => sp_path(x.path),
        _ => Set::<Span>::empty(),
    }
}

pub open spec fn sp_fn_sig(n: AstNode<ast::FnSig>) -> Set<Span>
    decreases n,
{
    sp_generic_params(n.node.generics@).union(sp_params(n.node.params@)).union(match n.node.return_ty { Some(x) => sp_ty(x), None => Set::<Span>::empty() })
}

pub open spec fn sp_generic_param(n: AstNode<ast::GenericParam>) -> Set<Span>
    decreases n,
{
    sp_paths(n.node.bounds@)
}

pub open spec fn sp_param(n: AstNode<ast::Param>) -> Set<Span>
    decreases n,
{
    sp_pattern(n.node.pattern).union(sp_ty(n.node.type_annotation))
}

pub open spec fn sp_variant_data(n: AstNode<ast::VariantData>) -> Set<Span>
    decreases n,
{
    match n.node {
        ast::VariantData::Unit => Set::<Span>::empty(),
        ast::VariantData::Struct { fields } => sp_struct_fields(fields@),
        ast::VariantData::Tuple { types } => sp_tys(types@),
    }
}

pub open spec fn sp_enum_variant(n: AstNode<ast::EnumVariant>) -> Set<Span>
    decreases n,
{
    sp_variant_data(n.node.data)
}

pub open spec fn sp_struct_field(n: AstNode<ast::StructFieldDef>) -> Set<Span>
    decreases n,
{
    sp_ty(n.node.type_annotation)
}

pub open spec fn sp_assoc_item(n: AstNode<ast::AssociatedItem>) -> Set<Span>
    decreases n,
{
    match n.node {
        ast::AssociatedItem::Fn(sig, body) => sp_fn_sig(sig).union(match body { Some(x) => sp_block(x), None => Set::<Span>::empty() }),
        ast::AssociatedItem::Type(alias) => sp_generic_params(alias.node.generics@).union(match alias.node.ty { Some(x) => sp_ty(x), None => Set::<Span>::empty() }),
    }
}

pub open spec fn sp_path(n: AstNode<ast::Path>) -> Set<Span>
    decreases n,
{
    if n.node.segments@.len() > 0 && n.node.segments@[0].node.ident.node.name@ == kw_self_ty() {
        set![n.node.segments@[0].span].union(sp_path_segments(n.node.segments@))
    } else {
        Set::<Span>::empty()
    }
}

pub open spec fn sp_path_segment(n: AstNode<ast::PathSegment>) -> Set<Span>
    decreases n,
{
    sp_generic_args(n.node.args@)
}

pub open spec fn sp_generic_arg(n: AstNode<ast::GenericArg>) -> Set<Span>
    decreases n,
{
    match n.node {
        ast::GenericArg::Type(t) => sp_ty(t),
        ast::GenericArg::Const(e) => sp_expr(*e),
    }
}

pub open spec fn sp_struct_expr_field(n: AstNode<ast::StructExprField>) -> Set<Span>
    decreases n,
{
    sp_expr(*n.node.expr)
}

pub open spec fn sp_stmt(n: AstNode<ast::Stmt>) -> Set<Span>
    decreases n,
{
    match n.node {
        ast::Stmt::Item(i) => sp_item(i),
        ast::Stmt::Let(l) => sp_pattern(l.pat).union(match l.type_annotation { Some(x) => sp_ty(x), None => Set::<Span>::empty() }).union(match l.expr { Some(x) => sp_expr(*x), None => Set::<Span>::empty() }),
        ast::Stmt::Expr(e) => sp_expr(e),
        ast::Stmt::Semi(e) => sp_expr(e),
        ast::Stmt::Error => Set::<Span>::empty(),
    }
}

pub open spec fn sp_block(n: AstNode<ast::BlockExpr>) -> Set<Span>
    decreases n,
{
    sp_stmts(n.node.stmts@)
}

pub open spec fn sp_ty(n: AstNode<ast::Ty>) -> Set<Span>
    decreases n,
{
    match n.node {
        ast::Ty::Path(p) => sp_path(p),
        ast::Ty::Array(t, e) => sp_ty(*t).union(sp_expr(*e)),
        ast::Ty::Ptr(t) => sp_ty(*t),
        ast::Ty::Fn(ps, r) => sp_tys(ps@).union(match *r { Some(x) => sp_ty(x), None => Set::<Span>::empty() }),
        ast::Ty::Tuple(ts) => sp_tys(ts@),
    }
}

pub open spec fn sp_pattern(n: AstNode<ast::Pattern>) -> Set<Span>
    decreases n,
{
    match n.node {
        ast::Pattern::Wildcard => Set::<Span>::empty(),
        ast::Pattern::Or(ps) => sp_patterns(ps@),
        ast::Pattern::Path(_) => Set::<Span>::empty(),
        ast::Pattern::Struct(_, fs) => sp_pattern_fields(fs@),
        ast::Pattern::TupleStruct(_, ps) => sp_patterns(ps@),
        ast::Pattern::Tuple(ps) => sp_patterns(ps@),
        ast::Pattern::Expr(e) => sp_expr(*e),
        ast::Pattern::Paren(p) => sp_pattern(*p),
    }
}

pub open spec fn sp_pattern_field(n: AstNode<ast::PatternStructField>) -> Set<Span>
    decreases n,
{
    sp_pattern(n.node.pattern)
}

pub open spec fn sp_match_arm(n: AstNode<ast::MatchArm>) -> Set<Span>
    decreases n,
{
    sp_pattern(n.node.pattern).union(sp_expr(*n.node.body))
}

pub open spec fn sp_expr(n: AstNode<ast::Expr>) -> Set<Span>
    decreases n,
{
    match n.node {
        ast::Expr::Array(a) => sp_exprs(a.expressions@),
        ast::Expr::Struct(s) => sp_path(s.name).union(sp_struct_expr_fields(s.fields@)),
        ast::Expr::Call(x) => sp_expr(*x.callee).union(sp_exprs(x.arguments@)),
        ast::Expr::MethodCall(m) => sp_path_segment(m.name).union(sp_expr(*m.receiver)).union(sp_exprs(m.arguments@)),
        ast::Expr::Tuple(t) => sp_exprs(t.expressions@),
        ast::Expr::Cast(x) => sp_expr(*x.expr).union(sp_ty(x.ty)),
        ast::Expr::Return(r) => match r.value { Some(x) => sp_expr(*x), None => Set::<Span>::empty() },
        ast::Expr::While(x) => sp_expr(*x.condition).union(sp_block(*x.body)),
        ast::Expr::Loop(x) => sp_block(*x.body),
        ast::Expr::For(x) => sp_expr(*x.iterator).union(sp_pattern(x.pattern)).union(sp_block(*x.body)),
        ast::Expr::Assign(x) => sp_expr(*x.target).union(sp_expr(*x.value)),
        ast::Expr::AssignOp(x) => sp_expr(*x.target).union(sp_expr(*x.value)),
        ast::Expr::FieldAccess(x) => sp_expr(*x.target),
        ast::Expr::Index(x) => sp_expr(*x.target).union(sp_expr(*x.index)),
        ast::Expr::Path(p) => sp_path(p.path),
        ast::Expr::AddrOf(x) => sp_expr(*x.expr),
        ast::Expr::Break(b) => match b.expr { Some(x) => sp_expr(*x), None => Set::<Span>::empty() },
        ast::Expr::Continue => Set::<Span>::empty(),
        ast::Expr::Literal(_) => Set::<Span>::empty(),
        ast::Expr::Binary(b) => sp_expr(*b.left).union(sp_expr(*b.right)),
        ast::Expr::Unary(u) => sp_expr(*u.operand),
        ast::Expr::If(i) => sp_expr(*i.condition).union(sp_block(*i.then_branch)).union(match i.else_branch { Some(x) => sp_block(*x), None => Set::<Span>::empty() }),
        ast::Expr::Block(b) => sp_stmts(b.stmts@),
        ast::Expr::Match(m) => sp_expr(*m.value).union(sp_match_arms(m.arms@)),
        ast::Expr::Let(l) => sp_expr(*l.value).union(sp_pattern(l.pattern)),
        ast::Expr::Paren(x) => sp_expr(*x),
        ast::Expr::Error => Set::<Span>::empty(),
    }
}

pub open spec fn sp_items(s: Seq<AstNode<ast::Item>>) -> Set<Span>
    decreases s,
{
    if s.len() == 0 {
        Set::<Span>::empty()
    } else {
        sp_items(s.drop_last()).union(sp_item(s.last()))
    }
}

pub open spec fn sp_generic_params(s: Seq<AstNode<ast::GenericParam>>) -> Set<Span>
    decreases s,
{
    if s.len() == 0 {
        Set::<Span>::empty()
    } else {
        sp_generic_params(s.drop_last()).union(sp_generic_param(s.last()))
    }
}

pub open spec fn sp_params(s: Seq<AstNode<ast::Param>>) -> Set<Span>
    decreases s,
{
    if s.len() == 0 {
        Set::<Span>::empty()
    } else {
        sp_params(s.drop_last()).union(sp_param(s.last()))
    }
}

pub open spec fn sp_enum_variants(s: Seq<AstNode<ast::EnumVariant>>) -> Set<Span>
    decreases s,
{
    if s.len() == 0 {
        Set::<Span>::empty()
    } else {
        sp_enum_variants(s.drop_last()).union(sp_enum_variant(s.last()))
    }
}

pub open spec fn sp_struct_fields(s: Seq<AstNode<ast::StructFieldDef>>) -> Set<Span>
    decreases s,
{
    if s.len() == 0 {
        Set::<Span>::empty()
    } else {
        sp_struct_fields(s.drop_last()).union(sp_struct_field(s.last()))
    }
}

pub open spec fn sp_assoc_items(s: Seq<AstNode<ast::AssociatedItem>>) -> Set<Span>
    decreases s,
{
    if s.len() == 0 {
        Set::<Span>::empty()
    } else {
        sp_assoc_items(s.drop_last()).union(sp_assoc_item(s.last()))
    }
}

pub open spec fn sp_paths(s: Seq<AstNode<ast::Path>>) -> Set<Span>
    decreases s,
{
    if s.len() == 0 {
        Set::<Span>::empty()
    } else {
        sp_paths(s.drop_last()).union(sp_path(s.last()))
    }
}

pub open spec fn sp_path_segments(s: Seq<AstNode<ast::PathSegment>>) -> Set<Span>
    decreases s,
{
    if s.len() == 0 {
        Set::<Span>::empty()
    } else {
        sp_path_segments(s.drop_last()).union(sp_path_segment(s.last()))
    }
}

pub open spec fn sp_generic_args(s: Seq<AstNode<ast::GenericArg>>) -> Set<Span>
    decreases s,
{
    if s.len() == 0 {
        Set::<Span>::empty()
    } else {
        sp_generic_args(s.drop_last()).union(sp_generic_arg(s.last()))
    }
}

pub open spec fn sp_struct_expr_fields(s: Seq<AstNode<ast::StructExprField>>) -> Set<Span>
    decreases s,
{
    if s.len() == 0 {
        Set::<Span>::empty()
    } else {
        sp_struct_expr_fields(s.drop_last()).union(sp_struct_expr_field(s.last()))
    }
}

pub open spec fn sp_stmts(s: Seq<AstNode<ast::Stmt>>) -> Set<Span>
    decreases s,
{
    if s.len() == 0 {
        Set::<Span>::empty()
    } else {
        sp_stmts(s.drop_last()).union(sp_stmt(s.last()))
    }
}

pub open spec fn sp_tys(s: Seq<AstNode<ast::Ty>>) -> Set<Span>
    decreases s,
{
    if s.len() == 0 {
        Set::<Span>::empty()
    } else {
        sp_tys(s.drop_last()).union(sp_ty(s.last()))
    }
}

pub open spec fn sp_patterns(s: Seq<AstNode<ast::Pattern>>) -> Set<Span>
    decreases s,
{
    if s.len() == 0 {
        Set::<Span>::empty()
    } else {
        sp_patterns(s.drop_last()).union(sp_pattern(s.last()))
    }
}

pub open spec fn sp_pattern_fields(s: Seq<AstNode<ast::PatternStructField>>) -> Set<Span>
    decreases s,
{
    if s.len() == 0 {
        Set::<Span>::empty()
    } else {
        sp_pattern_fields(s.drop_last()).union(sp_pattern_field(s.last()))
    }
}

pub open spec fn sp_match_arms(s: Seq<AstNode<ast::MatchArm>>) -> Set<Span>
    decreases s,
{
    if s.len() == 0 {
        Set::<Span>::empty()
    } else {
        sp_match_arms(s.drop_last()).union(sp_match_arm(s.last()))
    }
}

pub open spec fn sp_exprs(s: Seq<AstNode<ast::Expr>>) -> Set<Span>
    decreases s,
{
    if s.len() == 0 {
        Set::<Span>::empty()
    } else {
        sp_exprs(s.drop_last()).union(sp_expr(s.last()))
    }
}

/// A path is settled once its node has a resolution, or an error reports
/// it as unresolved.
pub open spec fn paths_settled(r: Resolver, s: Set<AstNode<ast::Path>>) -> bool {
    forall|p: AstNode<ast::Path>| #[trigger] s.contains(p) ==> r.defs.resolutions_view().contains_key(p.ast_id.0)
        || exists|i: int| 0 <= i < r.errors@.len() && is_unresolved_path_error(#[trigger] r.errors@[i], p)
}

/// The pattern is a single plain name other than `Self`.
pub open spec fn is_single_name_pattern(p: AstNode<ast::Pattern>) -> bool {
    &&& p.node matches ast::Pattern::Path(path)
    &&& path.node.segments@.len() == 1
    &&& path.node.segments@[0].node.ident.node.name@ != kw_self_ty()
}

/// The identifier of a pattern that is a path: that of its first segment.
pub open spec fn pattern_ident(p: AstNode<ast::Pattern>) -> AstNode<Ident> {
    p.node->Path_0.node.segments@[0].node.ident
}

/// Some error reports `name`, written at `span`, as bound twice.
pub open spec fn duplicate_reported(errors: Seq<ResolverError>, span: Span, name: Seq<char>) -> bool {
    exists|k: int|
        0 <= k < errors.len() && (#[trigger] errors[k] matches ResolverError::DuplicateDefinition { span: sp, name: n }
            && sp == span && n@ == name)
}

/// An error added after the others leaves settled paths settled.
pub proof fn lemma_settled_push(a: Resolver, b: Resolver, e: ResolverError, s: Set<AstNode<ast::Path>>)
    requires
        b.defs == a.defs,
        b.errors@ == a.errors@.push(e),
        paths_settled(a, s),
    ensures
        paths_settled(b, s),
{
    assert forall|p: AstNode<ast::Path>| #[trigger] s.contains(p) implies b.defs.resolutions_view().contains_key(p.ast_id.0)
        || exists|i: int| 0 <= i < b.errors@.len() && is_unresolved_path_error(#[trigger] b.errors@[i], p) by {
        if !a.defs.resolutions_view().contains_key(p.ast_id.0) {
            let i = choose|i: int| 0 <= i < a.errors@.len() && is_unresolved_path_error(#[trigger] a.errors@[i], p);
            assert(b.errors@[i] == a.errors@[i]);
        }
    }
}

// The paths of one plain name (not `Self`, `self`, `crate` or `super`)
// that the walk of the names of a crate resolves, node by node: those in
// expressions, types, bounds, `impl ... for` and `use` items, and in the
// generic arguments of a `Self` path. The names bound by patterns are not
// among them.

pub open spec fn pe_item(n: AstNode<ast::Item>) -> Set<AstNode<ast::Path>>
    decreases n,
{
    match n.node {
        ast::Item::Fn(x) => pe_fn_sig(x.sig).union(pe_block(x.body)),
        ast::Item::Struct(x) => pe_generic_params(x.generics@).union(pe_variant_data(x.data)),
        ast::Item::Enum(x) => pe_generic_params(x.generics@).union(pe_enum_variants(x.variants@)),
        ast::Item::Trait(x) => pe_generic_params(x.generics@).union(pe_assoc_items(x.items@)),
        ast::Item::Mod(x) => pe_items(x.items@),
        ast::Item::Impl(x) => pe_generic_params(x.generics@).union(pe_ty(x.self_ty)).union(match x.for_trait { Some(x) => pe_path(x), None => Set::<AstNode<ast::Path>>::empty() }).union(pe_assoc_items(x.items@)),
        ast::Item::ExternFn(x) => pe_fn_sig(x.sig),
        ast::Item::Const(x) => pe_generic_params(x.generics@).union(match x.type_annotation { Some(x) => pe_ty(x), None => Set::<AstNode<ast::Path>>::empty() }).union(pe_expr(x.expr)),
        ast::Item::Use(x) => pe_path(x.path),
        ast::Item::TyAlias(x) => pe_generic_params(x.generics@).union(match x.ty { Some(x) => pe_ty(x), None => Set::<AstNode<ast::Path>>::empty() }),
        ast::Item::Error => Set::<AstNode<ast::Path>>::empty(),
    }
}

pub open spec fn pe_fn_sig(n: AstNode<ast::FnSig>) -> Set<AstNode<ast::Path>>
    decreases n,
{
    pe_generic_params(n.node.generics@).union(pe_params(n.node.params@)).union(match n.node.return_ty { Some(x) => pe_ty(x), None => Set::<AstNode<ast::Path>>::empty() })
}

pub open spec fn pe_generic_param(n: AstNode<ast::GenericParam>) -> Set<AstNode<ast::Path>>
    decreases n,
{
    pe_paths(n.node.bounds@)
}

pub open spec fn pe_param(n: AstNode<ast::Param>) -> Set<AstNode<ast::Path>>
    decreases n,
{
    pe_pattern(n.node.pattern).union(pe_ty(n.node.type_annotation))
}

pub open spec fn pe_variant_data(n: AstNode<ast::VariantData>) -> Set<AstNode<ast::Path>>
    decreases n,
{
    match n.node {
        ast::VariantData::Unit => Set::<AstNode<ast::Path>>::empty(),
        ast::VariantData::Struct { fields } => pe_struct_fields(fields@),
        ast::VariantData::Tuple { types } => pe_tys(types@),
    }
}

pub open spec fn pe_enum_variant(n: AstNode<ast::EnumVariant>) -> Set<AstNode<ast::Path>>
    decreases n,
{
    pe_variant_data(n.node.data)
}

pub open spec fn pe_struct_field(n: AstNode<ast::StructFieldDef>) -> Set<AstNode<ast::Path>>
    decreases n,
{
    pe_ty(n.node.type_annotation)
}

pub open spec fn pe_assoc_item(n: AstNode<ast::AssociatedItem>) -> Set<AstNode<ast::Path>>
    decreases n,
{
    match n.node {
        ast::AssociatedItem::Fn(sig, body) => pe_fn_sig(sig).union(match body { Some(x) => pe_block(x), None => Set::<AstNode<ast::Path>>::empty() }),
        ast::AssociatedItem::Type(alias) => pe_generic_params(alias.node.generics@).union(match alias.node.ty { Some(x) => pe_ty(x), None => Set::<AstNode<ast::Path>>::empty() }),
    }
}

pub open spec fn pe_path(n: AstNode<ast::Path>) -> Set<AstNode<ast::Path>>
    decreases n,
{
    if n.node.segments@.len() > 0 && n.node.segments@[0].node.ident.node.name@ == kw_self_ty() {
        pe_path_segments(n.node.segments@)
    } else if n.node.segments@.len() == 1 && segments_start_plain(n.node.segments@) {
        set![n]
    } else {
        Set::<AstNode<ast::Path>>::empty()
    }
}

pub open spec fn pe_path_segment(n: AstNode<ast::PathSegment>) -> Set<AstNode<ast::Path>>
    decreases n,
{
    pe_generic_args(n.node.args@)
}

pub open spec fn pe_generic_arg(n: AstNode<ast::GenericArg>) -> Set<AstNode<ast::Path>>
    decreases n,
{
    match n.node {
        ast::GenericArg::Type(t) => pe_ty(t),
        ast::GenericArg::Const(e) => pe_expr(*e),
    }
}

pub open spec fn pe_struct_expr_field(n: AstNode<ast::StructExprField>) -> Set<AstNode<ast::Path>>
    decreases n,
{
    pe_expr(*n.node.expr)
}

pub open spec fn pe_stmt(n: AstNode<ast::Stmt>) -> Set<AstNode<ast::Path>>
    decreases n,
{
    match n.node {
        ast::Stmt::Item(i) => pe_item(i),
        ast::Stmt::Let(l) => pe_pattern(l.pat).union(match l.type_annotation { Some(x) => pe_ty(x), None => Set::<AstNode<ast::Path>>::empty() }).union(match l.expr { Some(x) => pe_expr(*x), None => Set::<AstNode<ast::Path>>::empty() }),
        ast::Stmt::Expr(e) => pe_expr(e),
        ast::Stmt::Semi(e) => pe_expr(e),
        ast::Stmt::Error => Set::<AstNode<ast::Path>>::empty(),
    }
}

pub open spec fn pe_block(n: AstNode<ast::BlockExpr>) -> Set<AstNode<ast::Path>>
    decreases n,
{
    pe_stmts(n.node.stmts@)
}

pub open spec fn pe_ty(n: AstNode<ast::Ty>) -> Set<AstNode<ast::Path>>
    decreases n,
{
    match n.node {
        ast::Ty::Path(p) => pe_path(p),
        ast::Ty::Array(t, e) => pe_ty(*t).union(pe_expr(*e)),
        ast::Ty::Ptr(t) => pe_ty(*t),
        ast::Ty::Fn(ps, r) => pe_tys(ps@).union(match *r { Some(x) => pe_ty(x), None => Set::<AstNode<ast::Path>>::empty() }),
        ast::Ty::Tuple(ts) => pe_tys(ts@),
    }
}

pub open spec fn pe_pattern(n: AstNode<ast::Pattern>) -> Set<AstNode<ast::Path>>
    decreases n,
{
    match n.node {
        ast::Pattern::Wildcard => Set::<AstNode<ast::Path>>::empty(),
        ast::Pattern::Or(ps) => pe_patterns(ps@),
        ast::Pattern::Path(_) => Set::<AstNode<ast::Path>>::empty(),
        ast::Pattern::Struct(_, fs) => pe_pattern_fields(fs@),
        ast::Pattern::TupleStruct(_, ps) => pe_patterns(ps@),
        ast::Pattern::Tuple(ps) => pe_patterns(ps@),
        ast::Pattern::Expr(e) => pe_expr(*e),
        ast::Pattern::Paren(p) => pe_pattern(*p),
    }
}

pub open spec fn pe_pattern_field(n: AstNode<ast::PatternStructField>) -> Set<AstNode<ast::Path>>
    decreases n,
{
    pe_pattern(n.node.pattern)
}

pub open spec fn pe_match_arm(n: AstNode<ast::MatchArm>) -> Set<AstNode<ast::Path>>
    decreases n,
{
    pe_pattern(n.node.pattern).union(pe_expr(*n.node.body))
}

pub open spec fn pe_expr(n: AstNode<ast::Expr>) -> Set<AstNode<ast::Path>>
    decreases n,
{
    match n.node {
        ast::Expr::Array(a) => pe_exprs(a.expressions@),
        ast::Expr::Struct(s) => pe_path(s.name).union(pe_struct_expr_fields(s.fields@)),
        ast::Expr::Call(x) => pe_expr(*x.callee).union(pe_exprs(x.arguments@)),
        ast::Expr::MethodCall(m) => pe_path_segment(m.name).union(pe_expr(*m.receiver)).union(pe_exprs(m.arguments@)),
        ast::Expr::Tuple(t) => pe_exprs(t.expressions@),
        ast::Expr::Cast(x) => pe_expr(*x.expr).union(pe_ty(x.ty)),
        ast::Expr::Return(r) => match r.value { Some(x) => pe_expr(*x), None => Set::<AstNode<ast::Path>>::empty() },
        ast::Expr::While(x) => pe_expr(*x.condition).union(pe_block(*x.body)),
        ast::Expr::Loop(x) => pe_block(*x.body),
        ast::Expr::For(x) => pe_expr(*x.iterator).union(pe_pattern(x.pattern)).union(pe_block(*x.body)),
        ast::Expr::Assign(x) => pe_expr(*x.target).union(pe_expr(*x.value)),
        ast::Expr::AssignOp(x) => pe_expr(*x.target).union(pe_expr(*x.value)),
        ast::Expr::FieldAccess(x) => pe_expr(*x.target),
        ast::Expr::Index(x) => pe_expr(*x.target).union(pe_expr(*x.index)),
        ast::Expr::Path(p) => pe_path(p.path),
        ast::Expr::AddrOf(x) => pe_expr(*x.expr),
        ast::Expr::Break(b) => match b.expr { Some(x) => pe_expr(*x), None => Set::<AstNode<ast::Path>>::empty() },
        ast::Expr::Continue => Set::<AstNode<ast::Path>>::empty(),
        ast::Expr::Literal(_) => Set::<AstNode<ast::Path>>::empty(),
        ast::Expr::Binary(b) => pe_expr(*b.left).union(pe_expr(*b.right)),
        ast::Expr::Unary(u) => pe_expr(*u.operand),
        ast::Expr::If(i) => pe_expr(*i.condition).union(pe_block(*i.then_branch)).union(match i.else_branch { Some(x) => pe_block(*x), None => Set::<AstNode<ast::Path>>::empty() }),
        ast::Expr::Block(b) => pe_stmts(b.stmts@),
        ast::Expr::Match(m) => pe_expr(*m.value).union(pe_match_arms(m.arms@)),
        ast::Expr::Let(l) => pe_expr(*l.value).union(pe_pattern(l.pattern)),
        ast::Expr::Paren(x) => pe_expr(*x),
        ast::Expr::Error => Set::<AstNode<ast::Path>>::empty(),
    }
}

pub open spec fn pe_items(s: Seq<AstNode<ast::Item>>) -> Set<AstNode<ast::Path>>
    decreases s,
{
    if s.len() == 0 {
        Set::<AstNode<ast::Path>>::empty()
    } else {
        pe_items(s.drop_last()).union(pe_item(s.last()))
    }
}

pub open spec fn pe_generic_params(s: Seq<AstNode<ast::GenericParam>>) -> Set<AstNode<ast::Path>>
    decreases s,
{
    if s.len() == 0 {
        Set::<AstNode<ast::Path>>::empty()
    } else {
        pe_generic_params(s.drop_last()).union(pe_generic_param(s.last()))
    }
}

pub open spec fn pe_params(s: Seq<AstNode<ast::Param>>) -> Set<AstNode<ast::Path>>
    decreases s,
{
    if s.len() == 0 {
        Set::<AstNode<ast::Path>>::empty()
    } else {
        pe_params(s.drop_last()).union(pe_param(s.last()))
    }
}

pub open spec fn pe_enum_variants(s: Seq<AstNode<ast::EnumVariant>>) -> Set<AstNode<ast::Path>>
    decreases s,
{
    if s.len() == 0 {
        Set::<AstNode<ast::Path>>::empty()
    } else {
        pe_enum_variants(s.drop_last()).union(pe_enum_variant(s.last()))
    }
}

pub open spec fn pe_struct_fields(s: Seq<AstNode<ast::StructFieldDef>>) -> Set<AstNode<ast::Path>>
    decreases s,
{
    if s.len() == 0 {
        Set::<AstNode<ast::Path>>::empty()
    } else {
        pe_struct_fields(s.drop_last()).union(pe_struct_field(s.last()))
    }
}

pub open spec fn pe_assoc_items(s: Seq<AstNode<ast::AssociatedItem>>) -> Set<AstNode<ast::Path>>
    decreases s,
{
    if s.len() == 0 {
        Set::<AstNode<ast::Path>>::empty()
    } else {
        pe_assoc_items(s.drop_last()).union(pe_assoc_item(s.last()))
    }
}

pub open spec fn pe_paths(s: Seq<AstNode<ast::Path>>) -> Set<AstNode<ast::Path>>
    decreases s,
{
    if s.len() == 0 {
        Set::<AstNode<ast::Path>>::empty()
    } else {
        pe_paths(s.drop_last()).union(pe_path(s.last()))
    }
}

pub open spec fn pe_path_segments(s: Seq<AstNode<ast::PathSegment>>) -> Set<AstNode<ast::Path>>
    decreases s,
{
    if s.len() == 0 {
        Set::<AstNode<ast::Path>>::empty()
    } else {
        pe_path_segments(s.drop_last()).union(pe_path_segment(s.last()))
    }
}

pub open spec fn pe_generic_args(s: Seq<AstNode<ast::GenericArg>>) -> Set<AstNode<ast::Path>>
    decreases s,
{
    if s.len() == 0 {
        Set::<AstNode<ast::Path>>::empty()
    } else {
        pe_generic_args(s.drop_last()).union(pe_generic_arg(s.last()))
    }
}

pub open spec fn pe_struct_expr_fields(s: Seq<AstNode<ast::StructExprField>>) -> Set<AstNode<ast::Path>>
    decreases s,
{
    if s.len() == 0 {
        Set::<AstNode<ast::Path>>::empty()
    } else {
        pe_struct_expr_fields(s.drop_last()).union(pe_struct_expr_field(s.last()))
    }
}

pub open spec fn pe_stmts(s: Seq<AstNode<ast::Stmt>>) -> Set<AstNode<ast::Path>>
    decreases s,
{
    if s.len() == 0 {
        Set::<AstNode<ast::Path>>::empty()
    } else {
        pe_stmts(s.drop_last()).union(pe_stmt(s.last()))
    }
}

pub open spec fn pe_tys(s: Seq<AstNode<ast::Ty>>) -> Set<AstNode<ast::Path>>
    decreases s,
{
    if s.len() == 0 {
        Set::<AstNode<ast::Path>>::empty()
    } else {
        pe_tys(s.drop_last()).union(pe_ty(s.last()))
    }
}

pub open spec fn pe_patterns(s: Seq<AstNode<ast::Pattern>>) -> Set<AstNode<ast::Path>>
    decreases s,
{
    if s.len() == 0 {
        Set::<AstNode<ast::Path>>::empty()
    } else {
        pe_patterns(s.drop_last()).union(pe_pattern(s.last()))
    }
}

pub open spec fn pe_pattern_fields(s: Seq<AstNode<ast::PatternStructField>>) -> Set<AstNode<ast::Path>>
    decreases s,
{
    if s.len() == 0 {
        Set::<AstNode<ast::Path>>::empty()
    } else {
        pe_pattern_fields(s.drop_last()).union(pe_pattern_field(s.last()))
    }
}

pub open spec fn pe_match_arms(s: Seq<AstNode<ast::MatchArm>>) -> Set<AstNode<ast::Path>>
    decreases s,
{
    if s.len() == 0 {
        Set::<AstNode<ast::Path>>::empty()
    } else {
        pe_match_arms(s.drop_last()).union(pe_match_arm(s.last()))
    }
}

pub open spec fn pe_exprs(s: Seq<AstNode<ast::Expr>>) -> Set<AstNode<ast::Path>>
    decreases s,
{
    if s.len() == 0 {
        Set::<AstNode<ast::Path>>::empty()
    } else {
        pe_exprs(s.drop_last()).union(pe_expr(s.last()))
    }
}

/// What name resolution may do to the definitions: no definition is made
/// or changed, and every node mapped to a definition stays mapped.
pub open spec fn defs_kept(before: DefinitionMap, after: DefinitionMap) -> bool {
    &&& after.next_id() == before.next_id()
    &&& after.definitions_view() == before.definitions_view()
    &&& forall|k: usize| #[trigger] before.ast_to_def_view().contains_key(k) ==> after.ast_to_def_view().contains_key(k)
    &&& forall|k: usize| #[trigger] before.resolutions_view().contains_key(k) ==> after.resolutions_view().contains_key(k)
}

/// The error for a path that does not resolve: its identifiers joined by `::`.
pub open spec fn is_unresolved_path_error(e: ResolverError, path: AstNode<ast::Path>) -> bool {
    e matches ResolverError::UnresolvedPath { span, path: text } && span == path.span && text@
        == join_path(path.node.segments@.map_values(|s: AstNode<ast::PathSegment>| s.node.ident.node.name@))
}

impl Resolver {
    fn lookup_ribs(&self, ribs: &Vec<Rib>, ident: &Ident) -> (r: Option<Res<AstId>>)
        requires
            ribs_ok(ribs@),
        ensures
            r == spec_lookup_ribs(ribs@, ident.name@),
            ribs@.len() > 0 && ribs@.last().symbols().contains_key(ident.name@) ==> r == Some(
                ribs@.last().symbols()[ident.name@],
            ),
    {
        proof {
            if ribs@.len() > 0 && ribs@.last().symbols().contains_key(ident.name@) {
                law_innermost_rib_shadows(ribs@, ident.name@);
            }
        }
        let mut i = ribs.len();
        assert(ribs@.take(i as int) =~= ribs@);
        while i > 0
            invariant
                i <= ribs.len(),
                ribs_ok(ribs@),
                spec_lookup_ribs(ribs@, ident.name@) == spec_lookup_ribs(ribs@.take(i as int), ident.name@),
            decreases i,
        {
            assert(ribs@.take(i as int).last() == ribs@[i - 1]);
            assert(ribs@.take(i as int).drop_last() =~= ribs@.take(i - 1));
            match ribs[i - 1].get(ident) {
                Some(res) => {
                    return Some(res);
                },
                None => {},
            }
            i = i - 1;
        }
        None
    }

    fn res_of_def(&self, d: DefId) -> (r: Res<AstId>)
        ensures
            r == res_of_def(self, d),
    {
        match self.defs.get_definition(d) {
            Some(def) => Res::Def(d, def.kind),
            None => Res::Error,
        }
    }

    fn lookup_modules(&self, ident: &Ident, module_id: ModuleId) -> (r: Option<Res<AstId>>)
        requires
            self.inv(),
            module_id.0 < self.module_arena.n_modules(),
        ensures
            r == spec_lookup_modules(self, ident.name@, module_id),
        decreases module_id.0,
    {
        let module = self.module_arena.get(module_id);
        match module.get(ident) {
            None => match module.parent() {
                Some(p) => {
                    if p.0 < module_id.0 {
                        self.lookup_modules(ident, p)
                    } else {
                        None
                    }
                },
                None => None,
            },
            Some(binding) => match *binding {
                Binding::Item(def_id) => Some(self.res_of_def(def_id)),
                _ => Some(Res::Error),
            },
        }
    }

    fn lookup_value(&self, ribs: &Vec<Rib>, ident: &Ident, parent: ModuleId) -> (r: Option<Res<AstId>>)
        requires
            self.inv(),
            ribs_ok(ribs@),
            parent.0 < self.module_arena.n_modules(),
        ensures
            r == spec_lookup_value(self, ribs@, ident.name@, parent),
    {
        match self.lookup_ribs(ribs, ident) {
            Some(res) => Some(res),
            None => match self.lookup_modules(ident, parent) {
                Some(res) => Some(res),
                None => match PrimTy::from_name(ident.name.as_str()) {
                    Some(p) => Some(Res::PrimTy(p)),
                    None => None,
                },
            },
        }
    }

    fn resolve_ident_in_module(&self, module_id: ModuleId, ident: &Ident) -> (r: Option<Binding>)
        requires
            self.inv(),
            module_id.0 < self.module_arena.n_modules(),
        ensures
            r == spec_resolve_ident_in_module(self, ident.name@, module_id),
            r matches Some(b) ==> crate::resolver::module_builder::binding_in(
                b,
                self.module_arena.n_modules(),
                self.module_arena.n_imports(),
            ),
        decreases module_id.0,
    {
        let module = self.module_arena.get(module_id);
        match module.get(ident) {
            Some(binding) => Some(*binding),
            None => match module.kind() {
                ModuleKind::Block => match module.parent() {
                    Some(p) => {
                        if p.0 < module_id.0 {
                            self.resolve_ident_in_module(p, ident)
                        } else {
                            None
                        }
                    },
                    None => None,
                },
                ModuleKind::Def(_) => None,
            },
        }
    }

    fn report_unresolved_path(&mut self, path: &AstNode<ast::Path>)
        requires
            old(self).inv(),
        ensures
            final(self).inv(),
            final(self).defs == old(self).defs,
            final(self).module_arena == old(self).module_arena,
            final(self).modules == old(self).modules,
            defs_kept(old(self).defs, final(self).defs),
            final(self).errors@.len() == old(self).errors@.len() + 1,
            is_unresolved_path_error(final(self).errors@.last(), *path),
            final(self).errors@.drop_last() == old(self).errors@,
    {
        let segments = &path.node.segments;
        let ghost names = segments@.map_values(|s: AstNode<ast::PathSegment>| s.node.ident.node.name@);
        let mut text = String::new();
        let mut i: usize = 0;
        while i < segments.len()
            invariant
                i <= segments.len(),
                names == segments@.map_values(|s: AstNode<ast::PathSegment>| s.node.ident.node.name@),
                text@ == join_path(names.take(i as int)),
            decreases segments.len() - i,
        {
            if i > 0 {
                text.push(':');
                text.push(':');
            }
            push_string(&mut text, &segments[i].node.ident.node.name);
            i = i + 1;
            assert(names.take(i as int).drop_last() =~= names.take(i - 1));
            assert(names.take(i as int).last() == segments@[i - 1].node.ident.node.name@);
            assert(i == 1 ==> names.take(i as int) =~= seq![names[0]]);
        }
        assert(names.take(segments.len() as int) =~= names);
        self.errors.push(ResolverError::UnresolvedPath { span: path.span, path: text });
        assert(self.errors@.drop_last() =~= old(self).errors@);
    }

    /// Records that the path node `id` names the definition `def_id`.
    fn record_def(&mut self, id: AstId, def_id: DefId)
        requires
            old(self).inv(),
        ensures
            final(self).inv(),
            final(self).module_arena == old(self).module_arena,
            final(self).modules == old(self).modules,
            defs_kept(old(self).defs, final(self).defs),
            final(self).errors == old(self).errors,
            old(self).defs.definitions_view().contains_key(def_id.0) ==> final(self).defs.ast_to_def_view()
                == old(self).defs.ast_to_def_view().insert(id.0, def_id),
            !old(self).defs.definitions_view().contains_key(def_id.0) ==> final(self).defs == old(self).defs,
            final(self).defs.resolutions_view() == old(self).defs.resolutions_view(),
            def_recorded(old(self), final(self), id, def_id),
    {
        match self.defs.get_definition(def_id) {
            Some(_) => self.defs.insert_ast_id(id, def_id),
            None => {},
        }
    }

    /// Where a path starts: `crate` is the root; `super` is the module above
    /// the nearest module that is no block, each further `super` one more
    /// module up; `self` and any other first segment is the current module.
    /// Gives the module and how many segments that took, or `None` (with an
    /// error) when `super` goes above the root.
    fn resolve_first_segment(&mut self, segments: &Vec<AstNode<ast::PathSegment>>, parent: ModuleId) -> (r: Option<(ModuleId, usize)>)
        requires
            old(self).inv(),
            segments.len() > 0,
            parent.0 < old(self).module_arena.n_modules(),
        ensures
            final(self).inv(),
            final(self).defs == old(self).defs,
            final(self).module_arena == old(self).module_arena,
            final(self).modules == old(self).modules,
            defs_kept(old(self).defs, final(self).defs),
            old(self).errors@.is_prefix_of(final(self).errors@),
            r matches Some((m, k)) ==> m.0 < old(self).module_arena.n_modules() && k <= segments.len(),
            r is Some ==> *final(self) == *old(self),
            segments@[0].node.ident.node.name@ == kw_crate() ==> r == Some((old(self).module_arena.spec_root_id(), 1usize)),
            segments@[0].node.ident.node.name@ == kw_self() ==> r == Some((parent, 1usize)),
            segments@[0].node.ident.node.name@ != kw_crate() && segments@[0].node.ident.node.name@ != kw_self()
                && segments@[0].node.ident.node.name@ != kw_super() ==> r == Some((parent, 0usize)),
            r is None ==> segments@[0].node.ident.node.name@ == kw_super() && final(self).errors@.len() == old(self).errors@.len() + 1
                && final(self).errors@.last() is SuperBeyondRoot,
            match spec_first_segment(old(self), segments@, parent) {
                Ok((m, k)) => 0 <= k <= segments@.len() && r == Some((m, k as usize)),
                Err(k) => r is None && 0 <= k < segments@.len() && final(self).errors@ == old(self).errors@.push(
                    ResolverError::SuperBeyondRoot { span: segments@[k].span },
                ),
            },
    {
        let first = &segments[0].node.ident.node;
        if ident_is(first, &['c', 'r', 'a', 't', 'e']) {
            return Some((self.module_arena.root_id(), 1));
        }
        if ident_is(first, &['s', 'e', 'l', 'f']) {
            return Some((parent, 1));
        }
        if !ident_is(first, &['s', 'u', 'p', 'e', 'r']) {
            return Some((parent, 0));
        }
        let mut current = parent;
        loop
            invariant
                self.inv(),
                self == old(self),
                current.0 < self.module_arena.n_modules(),
                nearest_item_module(self, current) == nearest_item_module(self, parent),
            ensures
                self.inv(),
                self == old(self),
                current.0 < self.module_arena.n_modules(),
                current == nearest_item_module(self, parent),
            decreases current.0,
        {
            let module = self.module_arena.get(current);
            let is_block = match module.kind() {
                ModuleKind::Def(_) => false,
                ModuleKind::Block => true,
            };
            if !is_block {
                break;
            }
            match module.parent() {
                Some(p) => {
                    current = p;
                },
                None => {
                    break;
                },
            }
        }
        let module = self.module_arena.get(current);
        match module.parent() {
            Some(p) => {
                current = p;
            },
            None => {
                self.errors.push(ResolverError::SuperBeyondRoot { span: segments[0].span });
                return None;
            },
        }
        let ghost p0 = current;
        assert(spec_first_segment(self, segments@, parent) == spec_supers(self, segments@, 1, p0));
        let mut skip: usize = 1;
        while skip < segments.len() && ident_is(&segments[skip].node.ident.node, &['s', 'u', 'p', 'e', 'r'])
            invariant
                self.inv(),
                self == old(self),
                segments@[0].node.ident.node.name@ == kw_super(),
                1 <= skip <= segments.len(),
                current.0 < self.module_arena.n_modules(),
                spec_supers(self, segments@, skip as int, current) == spec_supers(self, segments@, 1, p0),
                spec_first_segment(self, segments@, parent) == spec_supers(self, segments@, 1, p0),
            decreases segments.len() - skip,
        {
            let module = self.module_arena.get(current);
            match module.parent() {
                Some(p) => {
                    current = p;
                },
                None => {
                    assert(spec_supers(self, segments@, skip as int, current) == Err::<(ModuleId, int), int>(
                        skip as int,
                    ));
                    self.errors.push(ResolverError::SuperBeyondRoot { span: segments[skip].span });
                    return None;
                },
            }
            skip = skip + 1;
        }
        Some((current, skip))
    }

    /// The definition a binding found along a path stands for, if it is an
    /// item (directly or through a resolved import).
    fn item_of_binding(&self, binding: Binding) -> (r: Option<DefId>)
        requires
            self.inv(),
            crate::resolver::module_builder::binding_in(binding, self.module_arena.n_modules(), self.module_arena.n_imports()),
        ensures
            r == spec_item_of_binding(self, binding),
    {
        match binding {
            Binding::Item(d) => Some(d),
            Binding::Module(_) => None,
            Binding::Import(i) => match self.module_arena.get_import(i).resolved_binding {
                Some(Binding::Item(d)) => Some(d),
                _ => None,
            },
        }
    }

    /// Resolves a path: a single name as a value (local binding, item in
    /// scope, primitive type); a longer path segment by segment through the
    /// modules, where a type-like item may be followed by more segments.
    /// Records what the path names, or reports it unresolved.
    fn resolve_path(&mut self, path: &AstNode<ast::Path>, ribs: &Vec<Rib>, parent: ModuleId)
        requires
            old(self).inv(),
            ribs_ok(ribs@),
            parent.0 < old(self).module_arena.n_modules(),
        ensures
            final(self).inv(),
            final(self).module_arena == old(self).module_arena,
            final(self).modules == old(self).modules,
            defs_kept(old(self).defs, final(self).defs),
            old(self).errors@.is_prefix_of(final(self).errors@),
            path_resolved(old(self), final(self), *path, ribs@, parent),
    {
        let segments = &path.node.segments;
        if segments.len() == 0 {
            return;
        }
        let (mut current, start) = match self.resolve_first_segment(segments, parent) {
            Some(x) => x,
            None => {
                return;
            },
        };
        if segments.len() == 1 && start == 0 {
            match self.lookup_value(ribs, &segments[0].node.ident.node, parent) {
                None => {
                    self.report_unresolved_path(path);
                },
                Some(res) => {
                    self.defs.insert_resolution(path.ast_id, res);
                },
            }
            return;
        }
        let mut i = start;
        let ghost m0 = current;
        while i < segments.len()
            invariant
                self.inv(),
                *self == *old(self),
                self.module_arena == old(self).module_arena,
                self.modules == old(self).modules,
                defs_kept(old(self).defs, self.defs),
                old(self).errors@.is_prefix_of(self.errors@),
                !(segments.len() == 1 && segments_start_plain(path.node.segments@)),
                segments == path.node.segments,
                start <= i <= segments.len(),
                current.0 < self.module_arena.n_modules(),
                spec_first_segment(old(self), segments@, parent) == Ok::<(ModuleId, int), int>((m0, start as int)),
                spec_walk_path(old(self), segments@, i as int, current) == spec_walk_path(
                    old(self),
                    segments@,
                    start as int,
                    m0,
                ),
            decreases segments.len() - i,
        {
            let binding = match self.resolve_ident_in_module(current, &segments[i].node.ident.node) {
                Some(b) => b,
                None => {
                    self.report_unresolved_path(path);
                    return;
                },
            };
            match binding {
                Binding::Module(m) => {
                    current = m;
                },
                _ => {
                    let through_import = match binding {
                        Binding::Import(_) => true,
                        _ => false,
                    };
                    match self.item_of_binding(binding) {
                        None => {
                            self.report_unresolved_path(path);
                            return;
                        },
                        Some(def_id) => {
                            let kind = match self.defs.get_definition(def_id) {
                                Some(def) => Some(def.kind),
                                None => None,
                            };
                            if i + 1 < segments.len() {
                                let type_like = match kind {
                                    Some(k) => k == DefKind::TypeParam || k == DefKind::Struct || k
                                        == DefKind::Enum || k == DefKind::TypeAlias || k == DefKind::Trait,
                                    None => false,
                                };
                                if type_like {
                                    self.record_def(path.ast_id, def_id);
                                } else {
                                    self.report_unresolved_path(path);
                                }
                                return;
                            }
                            if !through_import {
                                let res = self.res_of_def(def_id);
                                self.defs.insert_resolution(path.ast_id, res);
                            }
                            self.record_def(path.ast_id, def_id);
                            return;
                        },
                    }
                },
            }
            i = i + 1;
        }
        match self.module_arena.get(current).kind() {
            ModuleKind::Def(def_id) => self.record_def(path.ast_id, def_id),
            ModuleKind::Block => self.report_unresolved_path(path),
        }
    }
}

/// The first segment of the path is no `crate`, `self` or `super`.
pub open spec fn segments_start_plain(segments: Seq<AstNode<ast::PathSegment>>) -> bool {
    let first = segments[0].node.ident.node.name@;
    first != kw_crate() && first != kw_self() && first != kw_super()
}


/// Drops the innermost rib.
fn pop_rib(ribs: &mut Vec<Rib>)
    requires
        old(ribs)@.len() >= 2,
        forall|i: int| 0 <= i < old(ribs)@.len() ==> (#[trigger] old(ribs)@[i]).wf(),
    ensures
        ribs_ok(final(ribs)@),
        final(ribs)@ == old(ribs)@.drop_last(),
{
    ribs.pop();
}

/// Binds a name, in the innermost rib, to the pattern node that binds it.
fn define_binding(ribs: &mut Vec<Rib>, ident: Ident, binding: AstId)
    requires
        ribs_ok(old(ribs)@),
    ensures
        ribs_ok(final(ribs)@),
        final(ribs)@.len() == old(ribs)@.len(),
        final(ribs)@.drop_last() == old(ribs)@.drop_last(),
        final(ribs)@.last().symbols() == old(ribs)@.last().symbols().insert(ident.name@, Res::Local(binding)),
{
    let mut last = ribs.pop().unwrap();
    last.insert(ident, Res::Local(binding));
    ribs.push(last);
    assert(ribs@.drop_last() =~= old(ribs)@.drop_last());
}

impl Resolver {

    fn late_let(&mut self, l: &ast::LetStmt, ribs: &mut Vec<Rib>, parent: ModuleId, self_ty: Option<SelfTyInfo>)
        requires
            old(self).inv(),
            parent.0 < old(self).module_arena.n_modules(),
            ribs_ok(old(ribs)@),
        ensures
            final(self).inv(),
            final(self).module_arena == old(self).module_arena,
            final(self).modules == old(self).modules,
            defs_kept(old(self).defs, final(self).defs),
            old(self).errors@.is_prefix_of(final(self).errors@),
            ribs_ok(final(ribs)@),
            final(ribs)@.len() == old(ribs)@.len(),
            (l.pat.node matches ast::Pattern::Path(path) && path.node.segments@.len() == 1 && l.type_annotation is None
                && l.expr is None) ==> exists|b: Map<Seq<char>, ()>|
                name_pattern_resolved(
                    old(self),
                    final(self),
                    Map::<Seq<char>, ()>::empty(),
                    b,
                    old(ribs)@,
                    final(ribs)@,
                    l.pat.ast_id,
                    l.pat.node->Path_0,
                    PatternSource::Normal,
                    parent,
                ),
            self_ty is None ==> self_paths_reported(old(self).errors@, final(self).errors@, sp_pattern(l.pat).union(match l.type_annotation { Some(x) => sp_ty(x), None => Set::<Span>::empty() }).union(match l.expr { Some(x) => sp_expr(*x), None => Set::<Span>::empty() })),
            paths_settled(*final(self), pe_pattern(l.pat).union(match l.type_annotation { Some(x) => pe_ty(x), None => Set::<AstNode<ast::Path>>::empty() }).union(match l.expr { Some(x) => pe_expr(*x), None => Set::<AstNode<ast::Path>>::empty() })),
        decreases l,
    {
        self.resolve_pattern(&l.pat, PatternSource::Normal, ribs, parent, self_ty);
        match &l.type_annotation {
            Some(t) => {
                self.late_ty(t, ribs, parent, self_ty);
            },
            None => {},
        }
        match &l.expr {
            Some(e) => {
                self.late_expr(e, ribs, parent, self_ty);
            },
            None => {},
        }
    }

    /// Resolves a pattern, binding its names in the innermost rib.
    fn resolve_pattern(&mut self, pattern: &AstNode<ast::Pattern>, source: PatternSource, ribs: &mut Vec<Rib>, parent: ModuleId, self_ty: Option<SelfTyInfo>)
        requires
            old(self).inv(),
            parent.0 < old(self).module_arena.n_modules(),
            ribs_ok(old(ribs)@),
        ensures
            final(self).inv(),
            final(self).module_arena == old(self).module_arena,
            final(self).modules == old(self).modules,
            defs_kept(old(self).defs, final(self).defs),
            old(self).errors@.is_prefix_of(final(self).errors@),
            ribs_ok(final(ribs)@),
            final(ribs)@.len() == old(ribs)@.len(),
            match pattern.node {
                ast::Pattern::Path(path) => path.node.segments@.len() == 1 ==> exists|b: Map<Seq<char>, ()>|
                    name_pattern_resolved(
                        old(self),
                        final(self),
                        Map::<Seq<char>, ()>::empty(),
                        b,
                        old(ribs)@,
                        final(ribs)@,
                        pattern.ast_id,
                        path,
                        source,
                        parent,
                    ),
                _ => true,
            },
            self_ty is None ==> self_paths_reported(old(self).errors@, final(self).errors@, sp_pattern(*pattern)),
            paths_settled(*final(self), pe_pattern(*pattern)),
        decreases pattern, 1nat,
    {
        let mut bindings: NameTable<()> = NameTable::new();
        self.resolve_pattern_inner(pattern, source, &mut bindings, ribs, parent, self_ty);
    }

    fn resolve_pattern_inner(&mut self, pattern: &AstNode<ast::Pattern>, source: PatternSource, bindings: &mut NameTable<()>, ribs: &mut Vec<Rib>, parent: ModuleId, self_ty: Option<SelfTyInfo>)
        requires
            old(self).inv(),
            parent.0 < old(self).module_arena.n_modules(),
            ribs_ok(old(ribs)@),
            old(bindings).wf(),
        ensures
            final(self).inv(),
            final(self).module_arena == old(self).module_arena,
            final(self).modules == old(self).modules,
            defs_kept(old(self).defs, final(self).defs),
            old(self).errors@.is_prefix_of(final(self).errors@),
            ribs_ok(final(ribs)@),
            final(ribs)@.len() == old(ribs)@.len(),
            final(bindings).wf(),
            match pattern.node {
                ast::Pattern::Path(path) => path.node.segments@.len() == 1 ==> name_pattern_resolved(
                    old(self),
                    final(self),
                    old(bindings)@,
                    final(bindings)@,
                    old(ribs)@,
                    final(ribs)@,
                    pattern.ast_id,
                    path,
                    source,
                    parent,
                ),
                ast::Pattern::Tuple(ps) => source == PatternSource::Normal && (forall|k: int|
                    0 <= k < ps@.len() ==> is_single_name_pattern(#[trigger] ps@[k])) ==> forall|a: int, b: int|
                    0 <= a < b < ps@.len() && (#[trigger] pattern_ident(ps@[a])).node.name@ == (#[trigger] pattern_ident(
                        ps@[b],
                    )).node.name@ ==> duplicate_reported(
                        final(self).errors@,
                        pattern_ident(ps@[b]).span,
                        pattern_ident(ps@[b]).node.name@,
                    ),
                _ => true,
            },
            self_ty is None ==> self_paths_reported(old(self).errors@, final(self).errors@, sp_pattern(*pattern)),
            paths_settled(*final(self), pe_pattern(*pattern)),
        decreases pattern, 0nat,
    {
        match &pattern.node {
            ast::Pattern::Or(patterns) => {
                self.resolve_or_patterns(patterns, source, bindings, ribs, parent, self_ty);
            },
            ast::Pattern::Path(path) => {
                if path.node.segments.len() == 1 {
                    let name = &path.node.segments[0].node.ident;
                    if ident_is(&name.node, &['S', 'e', 'l', 'f']) {
                        self.errors.push(ResolverError::SelfAsBinding { span: name.span });
                        return;
                    }
                    if source == PatternSource::Match {
                        match self.lookup_value(ribs, &name.node, parent) {
                            Some(Res::Def(def_id, _)) => {
                                self.record_def(path.ast_id, def_id);
                                return;
                            },
                            _ => {},
                        }
                    }
                    let is_new = bindings.get(&name.node.name).is_none();
                    bindings.insert(name.node.name.clone(), ());
                    if !is_new {
                        if ribs[ribs.len() - 1].get(&name.node).is_some() {
                            self.errors.push(
                                ResolverError::DuplicateDefinition { span: name.span, name: name.node.name.clone() },
                            );
                        }
                    }
                    define_binding(ribs, clone_ident(&name.node), pattern.ast_id);
                    self.defs.insert_resolution(path.ast_id, Res::Local(pattern.ast_id));
                    proof {
                        let nm = name.node.name@;
                        assert(bindings@ == old(bindings)@.insert(nm, ()));
                        assert(ribs@.len() == old(ribs)@.len());
                        assert(ribs@.drop_last() == old(ribs)@.drop_last());
                        assert(ribs@.last().symbols() == old(ribs)@.last().symbols().insert(nm, Res::Local(pattern.ast_id)));
                        assert(self.defs.resolutions_view() == old(self).defs.resolutions_view().insert(path.ast_id.0, Res::Local(pattern.ast_id)));
                        assert(self.defs.ast_to_def_view() == old(self).defs.ast_to_def_view());
                        assert(self.defs.definitions_view() == old(self).defs.definitions_view());
                        if old(bindings)@.contains_key(nm) && old(ribs)@.last().symbols().contains_key(nm) {
                            assert(self.errors@.len() == old(self).errors@.len() + 1);
                            assert(self.errors@.drop_last() == old(self).errors@);
                        } else {
                            assert(self.errors == old(self).errors);
                        }
                    }
                } else {
                    self.resolve_path(path, ribs, parent);
                }
            },
            ast::Pattern::Paren(inner) => {
                self.resolve_pattern_inner(inner, source, bindings, ribs, parent, self_ty);
            },
            ast::Pattern::Tuple(patterns) => {
                self.resolve_pattern_list(patterns, source, bindings, ribs, parent, self_ty);
            },
            ast::Pattern::TupleStruct(path, patterns) => {
                self.resolve_path(path, ribs, parent);
                self.resolve_pattern_list(patterns, source, bindings, ribs, parent, self_ty);
            },
            ast::Pattern::Struct(path, fields) => {
                self.resolve_path(path, ribs, parent);
                self.resolve_pattern_field_list(fields, source, bindings, ribs, parent, self_ty);
            },
            ast::Pattern::Wildcard => {},
            ast::Pattern::Expr(e) => {
                self.late_expr(e, ribs, parent, self_ty);
            },
        }
    }

    fn resolve_pattern_list(&mut self, v: &Vec<AstNode<ast::Pattern>>, source: PatternSource, bindings: &mut NameTable<()>, ribs: &mut Vec<Rib>, parent: ModuleId, self_ty: Option<SelfTyInfo>)
        requires
            old(self).inv(),
            parent.0 < old(self).module_arena.n_modules(),
            ribs_ok(old(ribs)@),
            old(bindings).wf(),
        ensures
            final(self).inv(),
            final(self).module_arena == old(self).module_arena,
            final(self).modules == old(self).modules,
            defs_kept(old(self).defs, final(self).defs),
            old(self).errors@.is_prefix_of(final(self).errors@),
            ribs_ok(final(ribs)@),
            final(ribs)@.len() == old(ribs)@.len(),
            final(bindings).wf(),
            self_ty is None ==> self_paths_reported(old(self).errors@, final(self).errors@, sp_patterns(v@)),
            paths_settled(*final(self), pe_patterns(v@)),
            source == PatternSource::Normal && (forall|k: int| 0 <= k < v@.len() ==> is_single_name_pattern(#[trigger] v@[k]))
                ==> forall|a: int, b: int|
                0 <= a < b < v@.len() && (#[trigger] pattern_ident(v@[a])).node.name@ == (#[trigger] pattern_ident(v@[b])).node.name@
                    ==> duplicate_reported(final(self).errors@, pattern_ident(v@[b]).span, pattern_ident(v@[b]).node.name@),
        decreases v,
    {
        let ghost start = self.errors@;
        let ghost names_only = source == PatternSource::Normal && (forall|k: int| 0 <= k < v@.len() ==> is_single_name_pattern(#[trigger] v@[k]));
        let mut i: usize = 0;
        while i < v.len()
            invariant
                self_ty is None ==> self_paths_reported(start, self.errors@, sp_patterns(v@.take(i as int))),
                paths_settled(*self, pe_patterns(v@.take(i as int))),
                names_only == (source == PatternSource::Normal && (forall|k: int| 0 <= k < v@.len() ==> is_single_name_pattern(#[trigger] v@[k]))),
                names_only ==> forall|a: int| 0 <= a < i ==> bindings@.contains_key(#[trigger] pattern_ident(v@[a]).node.name@)
                    && ribs@.last().symbols().contains_key(pattern_ident(v@[a]).node.name@),
                names_only ==> forall|a: int, b: int|
                    0 <= a < b < i && (#[trigger] pattern_ident(v@[a])).node.name@ == (#[trigger] pattern_ident(v@[b])).node.name@
                        ==> duplicate_reported(self.errors@, pattern_ident(v@[b]).span, pattern_ident(v@[b]).node.name@),
                i <= v.len(),
                self.inv(),
                parent.0 < self.module_arena.n_modules(),
                self.module_arena == old(self).module_arena,
                self.modules == old(self).modules,
                defs_kept(old(self).defs, self.defs),
                old(self).errors@.is_prefix_of(self.errors@),
                ribs_ok(ribs@),
                ribs@.len() == old(ribs)@.len(),
                bindings.wf(),
            decreases v.len() - i,
        {
            proof {
                assert(decreases_to!(*v => v[i as int]));
            }
            let ghost errs_before = self.errors@;
            let ghost bindings_before = bindings@;
            let ghost ribs_before = ribs@;
            self.resolve_pattern_inner(&v[i], source, bindings, ribs, parent, self_ty);
            proof {
                assert(v@.take(i as int + 1).drop_last() =~= v@.take(i as int));
                if names_only {
                    let nm = pattern_ident(v@[i as int]).node.name@;
                    assert(is_single_name_pattern(v@[i as int]));
                    assert(bindings@ == bindings_before.insert(nm, ()));
                    assert(ribs@.last().symbols() == ribs_before.last().symbols().insert(
                        nm,
                        Res::Local(v@[i as int].ast_id),
                    ));
                    assert forall|a: int, b: int|
                        0 <= a < b < i + 1 && (#[trigger] pattern_ident(v@[a])).node.name@ == (#[trigger] pattern_ident(v@[b])).node.name@
                            implies duplicate_reported(self.errors@, pattern_ident(v@[b]).span, pattern_ident(v@[b]).node.name@) by {
                        if b < i {
                            let k = choose|k: int|
                                0 <= k < errs_before.len() && (#[trigger] errs_before[k] matches ResolverError::DuplicateDefinition { span: sp, name: n }
                                    && sp == pattern_ident(v@[b]).span && n@ == pattern_ident(v@[b]).node.name@);
                            assert(errs_before.is_prefix_of(self.errors@));
                            assert(self.errors@[k] == errs_before[k]);
                        } else {
                            assert(bindings_before.contains_key(nm));
                            assert(ribs_before.last().symbols().contains_key(nm));
                            let k = self.errors@.len() - 1;
                            assert(self.errors@[k] == self.errors@.last());
                        }
                    }
                }
            }
            i = i + 1;
        }
        proof {
            assert(v@.take(v.len() as int) =~= v@);
        }
    }

    fn resolve_pattern_field_list(&mut self, v: &Vec<AstNode<ast::PatternStructField>>, source: PatternSource, bindings: &mut NameTable<()>, ribs: &mut Vec<Rib>, parent: ModuleId, self_ty: Option<SelfTyInfo>)
        requires
            old(self).inv(),
            parent.0 < old(self).module_arena.n_modules(),
            ribs_ok(old(ribs)@),
            old(bindings).wf(),
        ensures
            final(self).inv(),
            final(self).module_arena == old(self).module_arena,
            final(self).modules == old(self).modules,
            defs_kept(old(self).defs, final(self).defs),
            old(self).errors@.is_prefix_of(final(self).errors@),
            ribs_ok(final(ribs)@),
            final(ribs)@.len() == old(ribs)@.len(),
            final(bindings).wf(),
            self_ty is None ==> self_paths_reported(old(self).errors@, final(self).errors@, sp_pattern_fields(v@)),
            paths_settled(*final(self), pe_pattern_fields(v@)),
        decreases v,
    {
        let ghost start = self.errors@;
        let mut i: usize = 0;
        while i < v.len()
            invariant
                self_ty is None ==> self_paths_reported(start, self.errors@, sp_pattern_fields(v@.take(i as int))),
                paths_settled(*self, pe_pattern_fields(v@.take(i as int))),
                i <= v.len(),
                self.inv(),
                parent.0 < self.module_arena.n_modules(),
                self.module_arena == old(self).module_arena,
                self.modules == old(self).modules,
                defs_kept(old(self).defs, self.defs),
                old(self).errors@.is_prefix_of(self.errors@),
                ribs_ok(ribs@),
                ribs@.len() == old(ribs)@.len(),
                bindings.wf(),
            decreases v.len() - i,
        {
            proof {
                assert(decreases_to!(*v => v[i as int]));
                assert(decreases_to!(v[i as int] => v[i as int].node));
            }
            self.resolve_pattern_inner(&v[i].node.pattern, source, bindings, ribs, parent, self_ty);
            proof {
                assert(sp_pattern_field(v@[i as int]) == sp_pattern(v@[i as int].node.pattern));
                assert(pe_pattern_field(v@[i as int]) == pe_pattern(v@[i as int].node.pattern));
            }
            proof {
                assert(v@.take(i as int + 1).drop_last() =~= v@.take(i as int));
            }
            i = i + 1;
        }
        proof {
            assert(v@.take(v.len() as int) =~= v@);
        }
    }

    /// Resolves the alternatives of an or-pattern; every alternative must
    /// bind the names the first one binds.
    fn resolve_or_patterns(&mut self, v: &Vec<AstNode<ast::Pattern>>, source: PatternSource, bindings: &mut NameTable<()>, ribs: &mut Vec<Rib>, parent: ModuleId, self_ty: Option<SelfTyInfo>)
        requires
            old(self).inv(),
            parent.0 < old(self).module_arena.n_modules(),
            ribs_ok(old(ribs)@),
            old(bindings).wf(),
        ensures
            final(self).inv(),
            final(self).module_arena == old(self).module_arena,
            final(self).modules == old(self).modules,
            defs_kept(old(self).defs, final(self).defs),
            old(self).errors@.is_prefix_of(final(self).errors@),
            ribs_ok(final(ribs)@),
            final(ribs)@.len() == old(ribs)@.len(),
            final(bindings).wf(),
            self_ty is None ==> self_paths_reported(old(self).errors@, final(self).errors@, sp_patterns(v@)),
            paths_settled(*final(self), pe_patterns(v@)),
        decreases v,
    {
        let mut first_bindings: Option<Vec<String>> = None;
        let ghost start = self.errors@;
        let mut i: usize = 0;
        while i < v.len()
            invariant
                self_ty is None ==> self_paths_reported(start, self.errors@, sp_patterns(v@.take(i as int))),
                paths_settled(*self, pe_patterns(v@.take(i as int))),
                i <= v.len(),
                self.inv(),
                parent.0 < self.module_arena.n_modules(),
                self.module_arena == old(self).module_arena,
                self.modules == old(self).modules,
                defs_kept(old(self).defs, self.defs),
                old(self).errors@.is_prefix_of(self.errors@),
                ribs_ok(ribs@),
                ribs@.len() == old(ribs)@.len(),
                bindings.wf(),
            decreases v.len() - i,
        {
            proof {
                assert(decreases_to!(*v => v[i as int]));
            }
            let mut alt_bindings: NameTable<()> = NameTable::new();
            self.resolve_pattern_inner(&v[i], source, &mut alt_bindings, ribs, parent, self_ty);
            proof {
                assert(v@.take(i as int + 1).drop_last() =~= v@.take(i as int));
            }
            let alt_names = alt_bindings.keys();
            let alt_span = v[i].span;
            match &first_bindings {
                None => {
                    first_bindings = Some(alt_names.clone());
                },
                Some(expected) => {
                    let mut k: usize = 0;
                    while k < expected.len()
                        invariant
                            k <= expected.len(),
                            self.inv(),
                            self.module_arena == old(self).module_arena,
                            self.modules == old(self).modules,
                            defs_kept(old(self).defs, self.defs),
                            old(self).errors@.is_prefix_of(self.errors@),
                            alt_bindings.wf(),
                            self_ty is None ==> self_paths_reported(start, self.errors@, sp_patterns(v@.take(i as int + 1))),
                            paths_settled(*self, pe_patterns(v@.take(i as int + 1))),
                        decreases expected.len() - k,
                    {
                        if alt_bindings.get(&expected[k]).is_none() {
                            let ghost errors_before = self.errors@;
                            let ghost r_before = *self;
                            let e = ResolverError::VariableNotBoundInPattern { span: alt_span, name: expected[k].clone() };
                            self.errors.push(e);
                            proof {
                                lemma_settled_push(r_before, *self, e, pe_patterns(v@.take(i as int + 1)));
                                if self_ty is None {
                                    lemma_reported_push(start, errors_before, e, sp_patterns(v@.take(i as int + 1)));
                                }
                            }
                        }
                        k = k + 1;
                    }
                },
            }
            let mut k: usize = 0;
            while k < alt_names.len()
                invariant
                    k <= alt_names.len(),
                    bindings.wf(),
                decreases alt_names.len() - k,
            {
                bindings.insert(alt_names[k].clone(), ());
                k = k + 1;
            }
            proof {
                assert(v@.take(i as int + 1).drop_last() =~= v@.take(i as int));
            }
            i = i + 1;
        }
        proof {
            assert(v@.take(v.len() as int) =~= v@);
        }
    }

    /// The definition a type names, when it is a path: a single name is
    /// looked up in the modules, otherwise what the path was recorded to name.
    fn get_def_from_ty(&self, ty: &AstNode<ast::Ty>, parent: ModuleId) -> (r: Option<DefId>)
        requires
            self.inv(),
            parent.0 < self.module_arena.n_modules(),
        ensures
            r == spec_def_from_ty(self, *ty, parent),
    {
        match &ty.node {
            ast::Ty::Path(path) => {
                if path.node.segments.len() == 1 {
                    match self.lookup_modules(&path.node.segments[0].node.ident.node, parent) {
                        Some(Res::Def(def_id, _)) => {
                            return Some(def_id);
                        },
                        _ => {},
                    }
                }
                match self.defs.get_def_from_ast(path.ast_id) {
                    Some(d) => Some(*d),
                    None => None,
                }
            },
            _ => None,
        }
    }

    /// Resolves every name of the crate, starting in the root module with
    /// one rib for items.
    pub fn resolve_crate(&mut self, krate: &ast::Crate)
        requires
            old(self).inv(),
        ensures
            final(self).inv(),
            final(self).module_arena == old(self).module_arena,
            final(self).modules == old(self).modules,
            defs_kept(old(self).defs, final(self).defs),
            old(self).errors@.is_prefix_of(final(self).errors@),
            self_paths_reported(old(self).errors@, final(self).errors@, sp_items(krate.items@)),
            paths_settled(*final(self), pe_items(krate.items@)),
    {
        let mut ribs: Vec<Rib> = Vec::new();
        ribs.push(Rib::item());
        let root = self.module_arena.root_id();
        self.late_item_list(&krate.items, &mut ribs, root, None);
    }

    fn late_item(&mut self, node: &AstNode<ast::Item>, ribs: &mut Vec<Rib>, parent: ModuleId, self_ty: Option<SelfTyInfo>)
        requires
            old(self).inv(),
            parent.0 < old(self).module_arena.n_modules(),
            ribs_ok(old(ribs)@),
        ensures
            final(self).inv(),
            final(self).module_arena == old(self).module_arena,
            final(self).modules == old(self).modules,
            defs_kept(old(self).defs, final(self).defs),
            old(self).errors@.is_prefix_of(final(self).errors@),
            ribs_ok(final(ribs)@),
            final(ribs)@.len() == old(ribs)@.len(),
            self_ty is None ==> self_paths_reported(old(self).errors@, final(self).errors@, sp_item(*node)),
            paths_settled(*final(self), pe_item(*node)),
        decreases node,
    {
        let mut item_parent = parent;
        match self.modules.get(&node.ast_id.0) {
            Some(m) => {
                item_parent = *m;
            },
            None => {},
        }
        let mut item_self_ty = self_ty;
        match &node.node {
            ast::Item::Impl(impl_decl) => match self.defs.get_def_from_ast(node.ast_id) {
                Some(d) => {
                    let impl_def = *d;
                    let self_ty_def = self.get_def_from_ty(&impl_decl.self_ty, item_parent);
                    let trait_def = match &impl_decl.for_trait {
                        Some(p) => match self.defs.get_def_from_ast(p.ast_id) {
                            Some(t) => Some(*t),
                            None => None,
                        },
                        None => None,
                    };
                    item_self_ty = Some(SelfTyInfo { self_ty_def, trait_def, impl_or_trait_def: impl_def });
                },
                None => {},
            },
            ast::Item::Trait(_) => match self.defs.get_def_from_ast(node.ast_id) {
                Some(d) => {
                    item_self_ty = Some(SelfTyInfo { self_ty_def: None, trait_def: Some(*d), impl_or_trait_def: *d });
                },
                None => {},
            },
            ast::Item::Struct(_) | ast::Item::Enum(_) | ast::Item::TyAlias(_) => match self.defs.get_def_from_ast(node.ast_id) {
                Some(d) => {
                    item_self_ty = Some(SelfTyInfo { self_ty_def: Some(*d), trait_def: None, impl_or_trait_def: *d });
                },
                None => {},
            },
            _ => {},
        }
        ribs.push(Rib::item());
        match &node.node {
            ast::Item::Fn(f) => { self.late_fn_sig(&f.sig, ribs, item_parent, item_self_ty); self.late_block(&f.body, ribs, item_parent, item_self_ty); },
            ast::Item::Struct(s) => { self.late_generic_param_list(&s.generics, ribs, item_parent, item_self_ty); self.late_variant_data(&s.data, ribs, item_parent, item_self_ty); },
            ast::Item::Enum(e) => { self.late_generic_param_list(&e.generics, ribs, item_parent, item_self_ty); self.late_enum_variant_list(&e.variants, ribs, item_parent, item_self_ty); },
            ast::Item::Trait(t) => { self.late_generic_param_list(&t.generics, ribs, item_parent, item_self_ty); self.late_assoc_item_list(&t.items, ribs, item_parent, item_self_ty); },
            ast::Item::Mod(m) => { self.late_item_list(&m.items, ribs, item_parent, item_self_ty); },
            ast::Item::Impl(i) => { self.late_generic_param_list(&i.generics, ribs, item_parent, item_self_ty); self.late_ty(&i.self_ty, ribs, item_parent, item_self_ty); match &i.for_trait { Some(x) => { self.late_path(x, ribs, item_parent, item_self_ty); }, None => {} } self.late_assoc_item_list(&i.items, ribs, item_parent, item_self_ty); },
            ast::Item::ExternFn(f) => { self.late_fn_sig(&f.sig, ribs, item_parent, item_self_ty); },
            ast::Item::Const(k) => { self.late_generic_param_list(&k.generics, ribs, item_parent, item_self_ty); match &k.type_annotation { Some(x) => { self.late_ty(x, ribs, item_parent, item_self_ty); }, None => {} } self.late_expr(&k.expr, ribs, item_parent, item_self_ty); },
            ast::Item::Use(u) => { self.late_path(&u.path, ribs, item_parent, item_self_ty); },
            ast::Item::TyAlias(a) => { self.late_generic_param_list(&a.generics, ribs, item_parent, item_self_ty); match &a.ty { Some(x) => { self.late_ty(x, ribs, item_parent, item_self_ty); }, None => {} } },
            ast::Item::Error => {},
        }
        pop_rib(ribs);
    }

    fn late_fn_sig(&mut self, node: &AstNode<ast::FnSig>, ribs: &mut Vec<Rib>, parent: ModuleId, self_ty: Option<SelfTyInfo>)
        requires
            old(self).inv(),
            parent.0 < old(self).module_arena.n_modules(),
            ribs_ok(old(ribs)@),
        ensures
            final(self).inv(),
            final(self).module_arena == old(self).module_arena,
            final(self).modules == old(self).modules,
            defs_kept(old(self).defs, final(self).defs),
            old(self).errors@.is_prefix_of(final(self).errors@),
            ribs_ok(final(ribs)@),
            final(ribs)@.len() == old(ribs)@.len(),
            self_ty is None ==> self_paths_reported(old(self).errors@, final(self).errors@, sp_fn_sig(*node)),
            paths_settled(*final(self), pe_fn_sig(*node)),
        decreases node,
    {
        self.late_generic_param_list(&node.node.generics, ribs, parent, self_ty); self.late_param_list(&node.node.params, ribs, parent, self_ty); match &node.node.return_ty { Some(x) => { self.late_ty(x, ribs, parent, self_ty); }, None => {} }
    }

    fn late_generic_param(&mut self, node: &AstNode<ast::GenericParam>, ribs: &mut Vec<Rib>, parent: ModuleId, self_ty: Option<SelfTyInfo>)
        requires
            old(self).inv(),
            parent.0 < old(self).module_arena.n_modules(),
            ribs_ok(old(ribs)@),
        ensures
            final(self).inv(),
            final(self).module_arena == old(self).module_arena,
            final(self).modules == old(self).modules,
            defs_kept(old(self).defs, final(self).defs),
            old(self).errors@.is_prefix_of(final(self).errors@),
            ribs_ok(final(ribs)@),
            final(ribs)@.len() == old(ribs)@.len(),
            self_ty is None ==> self_paths_reported(old(self).errors@, final(self).errors@, sp_generic_param(*node)),
            paths_settled(*final(self), pe_generic_param(*node)),
        decreases node,
    {
        self.late_path_list(&node.node.bounds, ribs, parent, self_ty);
    }

    fn late_param(&mut self, node: &AstNode<ast::Param>, ribs: &mut Vec<Rib>, parent: ModuleId, self_ty: Option<SelfTyInfo>)
        requires
            old(self).inv(),
            parent.0 < old(self).module_arena.n_modules(),
            ribs_ok(old(ribs)@),
        ensures
            final(self).inv(),
            final(self).module_arena == old(self).module_arena,
            final(self).modules == old(self).modules,
            defs_kept(old(self).defs, final(self).defs),
            old(self).errors@.is_prefix_of(final(self).errors@),
            ribs_ok(final(ribs)@),
            final(ribs)@.len() == old(ribs)@.len(),
            self_ty is None ==> self_paths_reported(old(self).errors@, final(self).errors@, sp_param(*node)),
            paths_settled(*final(self), pe_param(*node)),
        decreases node,
    {
        self.late_pattern(&node.node.pattern, ribs, parent, self_ty); self.late_ty(&node.node.type_annotation, ribs, parent, self_ty);
    }

    fn late_variant_data(&mut self, node: &AstNode<ast::VariantData>, ribs: &mut Vec<Rib>, parent: ModuleId, self_ty: Option<SelfTyInfo>)
        requires
            old(self).inv(),
            parent.0 < old(self).module_arena.n_modules(),
            ribs_ok(old(ribs)@),
        ensures
            final(self).inv(),
            final(self).module_arena == old(self).module_arena,
            final(self).modules == old(self).modules,
            defs_kept(old(self).defs, final(self).defs),
            old(self).errors@.is_prefix_of(final(self).errors@),
            ribs_ok(final(ribs)@),
            final(ribs)@.len() == old(ribs)@.len(),
            self_ty is None ==> self_paths_reported(old(self).errors@, final(self).errors@, sp_variant_data(*node)),
            paths_settled(*final(self), pe_variant_data(*node)),
        decreases node,
    {
        match &node.node {
            ast::VariantData::Unit => {},
            ast::VariantData::Struct { fields } => { self.late_struct_field_list(fields, ribs, parent, self_ty); },
            ast::VariantData::Tuple { types } => { self.late_ty_list(types, ribs, parent, self_ty); },
        }
    }

    fn late_enum_variant(&mut self, node: &AstNode<ast::EnumVariant>, ribs: &mut Vec<Rib>, parent: ModuleId, self_ty: Option<SelfTyInfo>)
        requires
            old(self).inv(),
            parent.0 < old(self).module_arena.n_modules(),
            ribs_ok(old(ribs)@),
        ensures
            final(self).inv(),
            final(self).module_arena == old(self).module_arena,
            final(self).modules == old(self).modules,
            defs_kept(old(self).defs, final(self).defs),
            old(self).errors@.is_prefix_of(final(self).errors@),
            ribs_ok(final(ribs)@),
            final(ribs)@.len() == old(ribs)@.len(),
            self_ty is None ==> self_paths_reported(old(self).errors@, final(self).errors@, sp_enum_variant(*node)),
            paths_settled(*final(self), pe_enum_variant(*node)),
        decreases node,
    {
        self.late_variant_data(&node.node.data, ribs, parent, self_ty);
    }

    fn late_struct_field(&mut self, node: &AstNode<ast::StructFieldDef>, ribs: &mut Vec<Rib>, parent: ModuleId, self_ty: Option<SelfTyInfo>)
        requires
            old(self).inv(),
            parent.0 < old(self).module_arena.n_modules(),
            ribs_ok(old(ribs)@),
        ensures
            final(self).inv(),
            final(self).module_arena == old(self).module_arena,
            final(self).modules == old(self).modules,
            defs_kept(old(self).defs, final(self).defs),
            old(self).errors@.is_prefix_of(final(self).errors@),
            ribs_ok(final(ribs)@),
            final(ribs)@.len() == old(ribs)@.len(),
            self_ty is None ==> self_paths_reported(old(self).errors@, final(self).errors@, sp_struct_field(*node)),
            paths_settled(*final(self), pe_struct_field(*node)),
        decreases node,
    {
        self.late_ty(&node.node.type_annotation, ribs, parent, self_ty);
    }

    fn late_assoc_item(&mut self, node: &AstNode<ast::AssociatedItem>, ribs: &mut Vec<Rib>, parent: ModuleId, self_ty: Option<SelfTyInfo>)
        requires
            old(self).inv(),
            parent.0 < old(self).module_arena.n_modules(),
            ribs_ok(old(ribs)@),
        ensures
            final(self).inv(),
            final(self).module_arena == old(self).module_arena,
            final(self).modules == old(self).modules,
            defs_kept(old(self).defs, final(self).defs),
            old(self).errors@.is_prefix_of(final(self).errors@),
            ribs_ok(final(ribs)@),
            final(ribs)@.len() == old(ribs)@.len(),
            self_ty is None ==> self_paths_reported(old(self).errors@, final(self).errors@, sp_assoc_item(*node)),
            paths_settled(*final(self), pe_assoc_item(*node)),
        decreases node,
    {
        match &node.node {
            ast::AssociatedItem::Fn(sig, body) => { self.late_fn_sig(sig, ribs, parent, self_ty); match body { Some(x) => { self.late_block(x, ribs, parent, self_ty); }, None => {} } },
            ast::AssociatedItem::Type(alias) => { self.late_generic_param_list(&alias.node.generics, ribs, parent, self_ty); match &alias.node.ty { Some(x) => { self.late_ty(x, ribs, parent, self_ty); }, None => {} } },
        }
    }

    fn late_path(&mut self, node: &AstNode<ast::Path>, ribs: &mut Vec<Rib>, parent: ModuleId, self_ty: Option<SelfTyInfo>)
        requires
            old(self).inv(),
            parent.0 < old(self).module_arena.n_modules(),
            ribs_ok(old(ribs)@),
        ensures
            final(self).inv(),
            final(self).module_arena == old(self).module_arena,
            final(self).modules == old(self).modules,
            defs_kept(old(self).defs, final(self).defs),
            old(self).errors@.is_prefix_of(final(self).errors@),
            ribs_ok(final(ribs)@),
            final(ribs)@.len() == old(ribs)@.len(),
            node.node.segments@.len() > 0 && node.node.segments@[0].node.ident.node.name@ == kw_self_ty()
                && self_ty is None ==> final(self).errors@.len() > old(self).errors@.len()
                && final(self).errors@[old(self).errors@.len() as int] == (ResolverError::SelfOutsideImpl {
                span: node.node.segments@[0].span,
            }),
            !(node.node.segments@.len() > 0 && node.node.segments@[0].node.ident.node.name@ == kw_self_ty())
                ==> path_resolved(old(self), final(self), *node, old(ribs)@, parent) && final(ribs)@ == old(ribs)@,
            self_ty is None ==> self_paths_reported(old(self).errors@, final(self).errors@, sp_path(*node)),
            paths_settled(*final(self), pe_path(*node)),
        decreases node,
    {
        let segments = &node.node.segments;
        if segments.len() == 0 {
            return;
        }
        if ident_is(&segments[0].node.ident.node, &['S', 'e', 'l', 'f']) {
            if self_ty.is_none() {
                self.errors.push(ResolverError::SelfOutsideImpl { span: segments[0].span });
            }
            let ghost before_args = self.errors@;
            self.late_path_segment_list(segments, ribs, parent, self_ty);
            proof {
                if self_ty is None {
                    let k = old(self).errors@.len() as int;
                    assert(before_args.is_prefix_of(self.errors@));
                    assert(self.errors@.subrange(0, before_args.len() as int)[k] == self.errors@[k]);
                    assert(self.errors@.contains(ResolverError::SelfOutsideImpl { span: segments@[0].span }));
                    assert forall|j: int| 0 <= j < old(self).errors@.len() implies self.errors@[j] == #[trigger] old(self).errors@[j] by {
                        assert(before_args[j] == old(self).errors@[j]);
                    }
                    assert(sp_path(*node) == set![segments@[0].span].union(sp_path_segments(segments@)));
                    assert(self_paths_reported(old(self).errors@, self.errors@, sp_path(*node)));
                }
            }
            return;
        }
        self.resolve_path(node, ribs, parent);
        proof {
            lemma_prefix_kept(old(self).errors@, self.errors@);
        }
    }

    fn late_path_segment(&mut self, node: &AstNode<ast::PathSegment>, ribs: &mut Vec<Rib>, parent: ModuleId, self_ty: Option<SelfTyInfo>)
        requires
            old(self).inv(),
            parent.0 < old(self).module_arena.n_modules(),
            ribs_ok(old(ribs)@),
        ensures
            final(self).inv(),
            final(self).module_arena == old(self).module_arena,
            final(self).modules == old(self).modules,
            defs_kept(old(self).defs, final(self).defs),
            old(self).errors@.is_prefix_of(final(self).errors@),
            ribs_ok(final(ribs)@),
            final(ribs)@.len() == old(ribs)@.len(),
            self_ty is None ==> self_paths_reported(old(self).errors@, final(self).errors@, sp_path_segment(*node)),
            paths_settled(*final(self), pe_path_segment(*node)),
        decreases node,
    {
        self.late_generic_arg_list(&node.node.args, ribs, parent, self_ty);
    }

    fn late_generic_arg(&mut self, node: &AstNode<ast::GenericArg>, ribs: &mut Vec<Rib>, parent: ModuleId, self_ty: Option<SelfTyInfo>)
        requires
            old(self).inv(),
            parent.0 < old(self).module_arena.n_modules(),
            ribs_ok(old(ribs)@),
        ensures
            final(self).inv(),
            final(self).module_arena == old(self).module_arena,
            final(self).modules == old(self).modules,
            defs_kept(old(self).defs, final(self).defs),
            old(self).errors@.is_prefix_of(final(self).errors@),
            ribs_ok(final(ribs)@),
            final(ribs)@.len() == old(ribs)@.len(),
            self_ty is None ==> self_paths_reported(old(self).errors@, final(self).errors@, sp_generic_arg(*node)),
            paths_settled(*final(self), pe_generic_arg(*node)),
        decreases node,
    {
        match &node.node {
            ast::GenericArg::Type(t) => { self.late_ty(t, ribs, parent, self_ty); },
            ast::GenericArg::Const(e) => { self.late_expr(e, ribs, parent, self_ty); },
        }
    }

    fn late_struct_expr_field(&mut self, node: &AstNode<ast::StructExprField>, ribs: &mut Vec<Rib>, parent: ModuleId, self_ty: Option<SelfTyInfo>)
        requires
            old(self).inv(),
            parent.0 < old(self).module_arena.n_modules(),
            ribs_ok(old(ribs)@),
        ensures
            final(self).inv(),
            final(self).module_arena == old(self).module_arena,
            final(self).modules == old(self).modules,
            defs_kept(old(self).defs, final(self).defs),
            old(self).errors@.is_prefix_of(final(self).errors@),
            ribs_ok(final(ribs)@),
            final(ribs)@.len() == old(ribs)@.len(),
            self_ty is None ==> self_paths_reported(old(self).errors@, final(self).errors@, sp_struct_expr_field(*node)),
            paths_settled(*final(self), pe_struct_expr_field(*node)),
        decreases node,
    {
        self.late_expr(&node.node.expr, ribs, parent, self_ty);
    }

    fn late_stmt(&mut self, node: &AstNode<ast::Stmt>, ribs: &mut Vec<Rib>, parent: ModuleId, self_ty: Option<SelfTyInfo>)
        requires
            old(self).inv(),
            parent.0 < old(self).module_arena.n_modules(),
            ribs_ok(old(ribs)@),
        ensures
            final(self).inv(),
            final(self).module_arena == old(self).module_arena,
            final(self).modules == old(self).modules,
            defs_kept(old(self).defs, final(self).defs),
            old(self).errors@.is_prefix_of(final(self).errors@),
            ribs_ok(final(ribs)@),
            final(ribs)@.len() == old(ribs)@.len(),
            (node.node matches ast::Stmt::Let(l) && l.pat.node matches ast::Pattern::Path(path)
                && path.node.segments@.len() == 1 && l.type_annotation is None && l.expr is None) ==> exists|b: Map<Seq<char>, ()>|
                name_pattern_resolved(
                    old(self),
                    final(self),
                    Map::<Seq<char>, ()>::empty(),
                    b,
                    old(ribs)@,
                    final(ribs)@,
                    node.node->Let_0.pat.ast_id,
                    node.node->Let_0.pat.node->Path_0,
                    PatternSource::Normal,
                    parent,
                ),
            self_ty is None ==> self_paths_reported(old(self).errors@, final(self).errors@, sp_stmt(*node)),
            paths_settled(*final(self), pe_stmt(*node)),
        decreases node,
    {
        match &node.node {
            ast::Stmt::Item(item) => { self.late_item(item, ribs, parent, self_ty); },
            ast::Stmt::Let(l) => { self.late_let(l, ribs, parent, self_ty); },
            ast::Stmt::Expr(e) => { self.late_expr(e, ribs, parent, self_ty); },
            ast::Stmt::Semi(e) => { self.late_expr(e, ribs, parent, self_ty); },
            ast::Stmt::Error => {},
        }
    }

    fn late_block(&mut self, node: &AstNode<ast::BlockExpr>, ribs: &mut Vec<Rib>, parent: ModuleId, self_ty: Option<SelfTyInfo>)
        requires
            old(self).inv(),
            parent.0 < old(self).module_arena.n_modules(),
            ribs_ok(old(ribs)@),
        ensures
            final(self).inv(),
            final(self).module_arena == old(self).module_arena,
            final(self).modules == old(self).modules,
            defs_kept(old(self).defs, final(self).defs),
            old(self).errors@.is_prefix_of(final(self).errors@),
            ribs_ok(final(ribs)@),
            final(ribs)@.len() == old(ribs)@.len(),
            self_ty is None ==> self_paths_reported(old(self).errors@, final(self).errors@, sp_block(*node)),
            paths_settled(*final(self), pe_block(*node)),
        decreases node,
    {
        self.late_block_stmts(node.ast_id, &node.node.stmts, ribs, parent, self_ty);
    }

    fn late_ty(&mut self, node: &AstNode<ast::Ty>, ribs: &mut Vec<Rib>, parent: ModuleId, self_ty: Option<SelfTyInfo>)
        requires
            old(self).inv(),
            parent.0 < old(self).module_arena.n_modules(),
            ribs_ok(old(ribs)@),
        ensures
            final(self).inv(),
            final(self).module_arena == old(self).module_arena,
            final(self).modules == old(self).modules,
            defs_kept(old(self).defs, final(self).defs),
            old(self).errors@.is_prefix_of(final(self).errors@),
            ribs_ok(final(ribs)@),
            final(ribs)@.len() == old(ribs)@.len(),
            self_ty is None ==> self_paths_reported(old(self).errors@, final(self).errors@, sp_ty(*node)),
            paths_settled(*final(self), pe_ty(*node)),
        decreases node,
    {
        match &node.node {
            ast::Ty::Path(p) => { self.late_path(p, ribs, parent, self_ty); },
            ast::Ty::Array(t, e) => { self.late_ty(t, ribs, parent, self_ty); self.late_expr(e, ribs, parent, self_ty); },
            ast::Ty::Ptr(t) => { self.late_ty(t, ribs, parent, self_ty); },
            ast::Ty::Fn(params, ret) => { self.late_ty_list(params, ribs, parent, self_ty); match &**ret { Some(r) => { self.late_ty(r, ribs, parent, self_ty); }, None => {} } },
            ast::Ty::Tuple(tys) => { self.late_ty_list(tys, ribs, parent, self_ty); },
        }
    }

    fn late_pattern(&mut self, node: &AstNode<ast::Pattern>, ribs: &mut Vec<Rib>, parent: ModuleId, self_ty: Option<SelfTyInfo>)
        requires
            old(self).inv(),
            parent.0 < old(self).module_arena.n_modules(),
            ribs_ok(old(ribs)@),
        ensures
            final(self).inv(),
            final(self).module_arena == old(self).module_arena,
            final(self).modules == old(self).modules,
            defs_kept(old(self).defs, final(self).defs),
            old(self).errors@.is_prefix_of(final(self).errors@),
            ribs_ok(final(ribs)@),
            final(ribs)@.len() == old(ribs)@.len(),
            self_ty is None ==> self_paths_reported(old(self).errors@, final(self).errors@, sp_pattern(*node)),
            paths_settled(*final(self), pe_pattern(*node)),
        decreases node,
    {
        self.resolve_pattern(node, PatternSource::Normal, ribs, parent, self_ty);
    }

    fn late_pattern_field(&mut self, node: &AstNode<ast::PatternStructField>, ribs: &mut Vec<Rib>, parent: ModuleId, self_ty: Option<SelfTyInfo>)
        requires
            old(self).inv(),
            parent.0 < old(self).module_arena.n_modules(),
            ribs_ok(old(ribs)@),
        ensures
            final(self).inv(),
            final(self).module_arena == old(self).module_arena,
            final(self).modules == old(self).modules,
            defs_kept(old(self).defs, final(self).defs),
            old(self).errors@.is_prefix_of(final(self).errors@),
            ribs_ok(final(ribs)@),
            final(ribs)@.len() == old(ribs)@.len(),
            self_ty is None ==> self_paths_reported(old(self).errors@, final(self).errors@, sp_pattern_field(*node)),
            paths_settled(*final(self), pe_pattern_field(*node)),
        decreases node,
    {
        self.late_pattern(&node.node.pattern, ribs, parent, self_ty);
    }

    fn late_match_arm(&mut self, node: &AstNode<ast::MatchArm>, ribs: &mut Vec<Rib>, parent: ModuleId, self_ty: Option<SelfTyInfo>)
        requires
            old(self).inv(),
            parent.0 < old(self).module_arena.n_modules(),
            ribs_ok(old(ribs)@),
        ensures
            final(self).inv(),
            final(self).module_arena == old(self).module_arena,
            final(self).modules == old(self).modules,
            defs_kept(old(self).defs, final(self).defs),
            old(self).errors@.is_prefix_of(final(self).errors@),
            ribs_ok(final(ribs)@),
            final(ribs)@.len() == old(ribs)@.len(),
            self_ty is None ==> self_paths_reported(old(self).errors@, final(self).errors@, sp_match_arm(*node)),
            paths_settled(*final(self), pe_match_arm(*node)),
        decreases node,
    {
        ribs.push(Rib::local());
        self.resolve_pattern(&node.node.pattern, PatternSource::Match, ribs, parent, self_ty);
        self.late_expr(&node.node.body, ribs, parent, self_ty);
        pop_rib(ribs);
    }

    fn late_expr(&mut self, node: &AstNode<ast::Expr>, ribs: &mut Vec<Rib>, parent: ModuleId, self_ty: Option<SelfTyInfo>)
        requires
            old(self).inv(),
            parent.0 < old(self).module_arena.n_modules(),
            ribs_ok(old(ribs)@),
        ensures
            final(self).inv(),
            final(self).module_arena == old(self).module_arena,
            final(self).modules == old(self).modules,
            defs_kept(old(self).defs, final(self).defs),
            old(self).errors@.is_prefix_of(final(self).errors@),
            ribs_ok(final(ribs)@),
            final(ribs)@.len() == old(ribs)@.len(),
            self_ty is None ==> self_paths_reported(old(self).errors@, final(self).errors@, sp_expr(*node)),
            paths_settled(*final(self), pe_expr(*node)),
        decreases node,
    {
        match &node.node {
            ast::Expr::Array(a) => { self.late_expr_list(&a.expressions, ribs, parent, self_ty); },
            ast::Expr::Struct(s) => { self.late_path(&s.name, ribs, parent, self_ty); self.late_struct_expr_field_list(&s.fields, ribs, parent, self_ty); },
            ast::Expr::Call(x) => { self.late_expr(&x.callee, ribs, parent, self_ty); self.late_expr_list(&x.arguments, ribs, parent, self_ty); },
            ast::Expr::MethodCall(m) => { self.late_path_segment(&m.name, ribs, parent, self_ty); self.late_expr(&m.receiver, ribs, parent, self_ty); self.late_expr_list(&m.arguments, ribs, parent, self_ty); },
            ast::Expr::Tuple(t) => { self.late_expr_list(&t.expressions, ribs, parent, self_ty); },
            ast::Expr::Cast(x) => { self.late_expr(&x.expr, ribs, parent, self_ty); self.late_ty(&x.ty, ribs, parent, self_ty); },
            ast::Expr::Return(r) => { match &r.value { Some(x) => { self.late_expr(x, ribs, parent, self_ty); }, None => {} } },
            ast::Expr::While(x) => { self.late_expr(&x.condition, ribs, parent, self_ty); self.late_block(&x.body, ribs, parent, self_ty); },
            ast::Expr::Loop(x) => { self.late_block(&x.body, ribs, parent, self_ty); },
            ast::Expr::For(x) => {
                self.late_expr(&x.iterator, ribs, parent, self_ty);
                ribs.push(Rib::local());
                self.resolve_pattern(&x.pattern, PatternSource::Normal, ribs, parent, self_ty);
                self.late_block(&x.body, ribs, parent, self_ty);
                pop_rib(ribs);
            },
            ast::Expr::Assign(x) => { self.late_expr(&x.target, ribs, parent, self_ty); self.late_expr(&x.value, ribs, parent, self_ty); },
            ast::Expr::AssignOp(x) => { self.late_expr(&x.target, ribs, parent, self_ty); self.late_expr(&x.value, ribs, parent, self_ty); },
            ast::Expr::FieldAccess(x) => { self.late_expr(&x.target, ribs, parent, self_ty); },
            ast::Expr::Index(x) => { self.late_expr(&x.target, ribs, parent, self_ty); self.late_expr(&x.index, ribs, parent, self_ty); },
            ast::Expr::Path(p) => { self.late_path(&p.path, ribs, parent, self_ty); },
            ast::Expr::AddrOf(x) => { self.late_expr(&x.expr, ribs, parent, self_ty); },
            ast::Expr::Break(b) => { match &b.expr { Some(x) => { self.late_expr(x, ribs, parent, self_ty); }, None => {} } },
            ast::Expr::Continue => {},
            ast::Expr::Literal(_) => {},
            ast::Expr::Binary(b) => { self.late_expr(&b.left, ribs, parent, self_ty); self.late_expr(&b.right, ribs, parent, self_ty); },
            ast::Expr::Unary(u) => { self.late_expr(&u.operand, ribs, parent, self_ty); },
            ast::Expr::If(i) => { self.late_expr(&i.condition, ribs, parent, self_ty); self.late_block(&i.then_branch, ribs, parent, self_ty); match &i.else_branch { Some(b) => { self.late_block(b, ribs, parent, self_ty); }, None => {} } },
            ast::Expr::Block(b) => { self.late_block_stmts(node.ast_id, &b.stmts, ribs, parent, self_ty); },
            ast::Expr::Match(m) => { self.late_expr(&m.value, ribs, parent, self_ty); self.late_match_arm_list(&m.arms, ribs, parent, self_ty); },
            ast::Expr::Let(l) => {
                self.late_expr(&l.value, ribs, parent, self_ty);
                self.resolve_pattern(&l.pattern, PatternSource::Match, ribs, parent, self_ty);
            },
            ast::Expr::Paren(x) => { self.late_expr(x, ribs, parent, self_ty); },
            ast::Expr::Error => {},
        }
    }

    fn late_item_list(&mut self, v: &Vec<AstNode<ast::Item>>, ribs: &mut Vec<Rib>, parent: ModuleId, self_ty: Option<SelfTyInfo>)
        requires
            old(self).inv(),
            parent.0 < old(self).module_arena.n_modules(),
            ribs_ok(old(ribs)@),
        ensures
            final(self).inv(),
            final(self).module_arena == old(self).module_arena,
            final(self).modules == old(self).modules,
            defs_kept(old(self).defs, final(self).defs),
            old(self).errors@.is_prefix_of(final(self).errors@),
            ribs_ok(final(ribs)@),
            final(ribs)@.len() == old(ribs)@.len(),
            self_ty is None ==> self_paths_reported(old(self).errors@, final(self).errors@, sp_items(v@)),
            paths_settled(*final(self), pe_items(v@)),
        decreases v,
    {
        let ghost start = self.errors@;
        let mut i: usize = 0;
        while i < v.len()
            invariant
                self_ty is None ==> self_paths_reported(start, self.errors@, sp_items(v@.take(i as int))),
                paths_settled(*self, pe_items(v@.take(i as int))),
                i <= v.len(),
                self.inv(),
                parent.0 < self.module_arena.n_modules(),
                self.module_arena == old(self).module_arena,
                self.modules == old(self).modules,
                defs_kept(old(self).defs, self.defs),
                old(self).errors@.is_prefix_of(self.errors@),
                ribs_ok(ribs@),
                ribs@.len() == old(ribs)@.len(),
            decreases v.len() - i,
        {
            proof {
                assert(decreases_to!(*v => v[i as int]));
            }
            self.late_item(&v[i], ribs, parent, self_ty);
            proof {
                assert(v@.take(i as int + 1).drop_last() =~= v@.take(i as int));
            }
            i = i + 1;
        }
        proof {
            assert(v@.take(v.len() as int) =~= v@);
        }
    }

    fn late_generic_param_list(&mut self, v: &Vec<AstNode<ast::GenericParam>>, ribs: &mut Vec<Rib>, parent: ModuleId, self_ty: Option<SelfTyInfo>)
        requires
            old(self).inv(),
            parent.0 < old(self).module_arena.n_modules(),
            ribs_ok(old(ribs)@),
        ensures
            final(self).inv(),
            final(self).module_arena == old(self).module_arena,
            final(self).modules == old(self).modules,
            defs_kept(old(self).defs, final(self).defs),
            old(self).errors@.is_prefix_of(final(self).errors@),
            ribs_ok(final(ribs)@),
            final(ribs)@.len() == old(ribs)@.len(),
            self_ty is None ==> self_paths_reported(old(self).errors@, final(self).errors@, sp_generic_params(v@)),
            paths_settled(*final(self), pe_generic_params(v@)),
        decreases v,
    {
        let ghost start = self.errors@;
        let mut i: usize = 0;
        while i < v.len()
            invariant
                self_ty is None ==> self_paths_reported(start, self.errors@, sp_generic_params(v@.take(i as int))),
                paths_settled(*self, pe_generic_params(v@.take(i as int))),
                i <= v.len(),
                self.inv(),
                parent.0 < self.module_arena.n_modules(),
                self.module_arena == old(self).module_arena,
                self.modules == old(self).modules,
                defs_kept(old(self).defs, self.defs),
                old(self).errors@.is_prefix_of(self.errors@),
                ribs_ok(ribs@),
                ribs@.len() == old(ribs)@.len(),
            decreases v.len() - i,
        {
            proof {
                assert(decreases_to!(*v => v[i as int]));
            }
            self.late_generic_param(&v[i], ribs, parent, self_ty);
            proof {
                assert(v@.take(i as int + 1).drop_last() =~= v@.take(i as int));
            }
            i = i + 1;
        }
        proof {
            assert(v@.take(v.len() as int) =~= v@);
        }
    }

    fn late_param_list(&mut self, v: &Vec<AstNode<ast::Param>>, ribs: &mut Vec<Rib>, parent: ModuleId, self_ty: Option<SelfTyInfo>)
        requires
            old(self).inv(),
            parent.0 < old(self).module_arena.n_modules(),
            ribs_ok(old(ribs)@),
        ensures
            final(self).inv(),
            final(self).module_arena == old(self).module_arena,
            final(self).modules == old(self).modules,
            defs_kept(old(self).defs, final(self).defs),
            old(self).errors@.is_prefix_of(final(self).errors@),
            ribs_ok(final(ribs)@),
            final(ribs)@.len() == old(ribs)@.len(),
            self_ty is None ==> self_paths_reported(old(self).errors@, final(self).errors@, sp_params(v@)),
            paths_settled(*final(self), pe_params(v@)),
        decreases v,
    {
        let ghost start = self.errors@;
        let mut i: usize = 0;
        while i < v.len()
            invariant
                self_ty is None ==> self_paths_reported(start, self.errors@, sp_params(v@.take(i as int))),
                paths_settled(*self, pe_params(v@.take(i as int))),
                i <= v.len(),
                self.inv(),
                parent.0 < self.module_arena.n_modules(),
                self.module_arena == old(self).module_arena,
                self.modules == old(self).modules,
                defs_kept(old(self).defs, self.defs),
                old(self).errors@.is_prefix_of(self.errors@),
                ribs_ok(ribs@),
                ribs@.len() == old(ribs)@.len(),
            decreases v.len() - i,
        {
            proof {
                assert(decreases_to!(*v => v[i as int]));
            }
            self.late_param(&v[i], ribs, parent, self_ty);
            proof {
                assert(v@.take(i as int + 1).drop_last() =~= v@.take(i as int));
            }
            i = i + 1;
        }
        proof {
            assert(v@.take(v.len() as int) =~= v@);
        }
    }

    fn late_enum_variant_list(&mut self, v: &Vec<AstNode<ast::EnumVariant>>, ribs: &mut Vec<Rib>, parent: ModuleId, self_ty: Option<SelfTyInfo>)
        requires
            old(self).inv(),
            parent.0 < old(self).module_arena.n_modules(),
            ribs_ok(old(ribs)@),
        ensures
            final(self).inv(),
            final(self).module_arena == old(self).module_arena,
            final(self).modules == old(self).modules,
            defs_kept(old(self).defs, final(self).defs),
            old(self).errors@.is_prefix_of(final(self).errors@),
            ribs_ok(final(ribs)@),
            final(ribs)@.len() == old(ribs)@.len(),
            self_ty is None ==> self_paths_reported(old(self).errors@, final(self).errors@, sp_enum_variants(v@)),
            paths_settled(*final(self), pe_enum_variants(v@)),
        decreases v,
    {
        let ghost start = self.errors@;
        let mut i: usize = 0;
        while i < v.len()
            invariant
                self_ty is None ==> self_paths_reported(start, self.errors@, sp_enum_variants(v@.take(i as int))),
                paths_settled(*self, pe_enum_variants(v@.take(i as int))),
                i <= v.len(),
                self.inv(),
                parent.0 < self.module_arena.n_modules(),
                self.module_arena == old(self).module_arena,
                self.modules == old(self).modules,
                defs_kept(old(self).defs, self.defs),
                old(self).errors@.is_prefix_of(self.errors@),
                ribs_ok(ribs@),
                ribs@.len() == old(ribs)@.len(),
            decreases v.len() - i,
        {
            proof {
                assert(decreases_to!(*v => v[i as int]));
            }
            self.late_enum_variant(&v[i], ribs, parent, self_ty);
            proof {
                assert(v@.take(i as int + 1).drop_last() =~= v@.take(i as int));
            }
            i = i + 1;
        }
        proof {
            assert(v@.take(v.len() as int) =~= v@);
        }
    }

    fn late_struct_field_list(&mut self, v: &Vec<AstNode<ast::StructFieldDef>>, ribs: &mut Vec<Rib>, parent: ModuleId, self_ty: Option<SelfTyInfo>)
        requires
            old(self).inv(),
            parent.0 < old(self).module_arena.n_modules(),
            ribs_ok(old(ribs)@),
        ensures
            final(self).inv(),
            final(self).module_arena == old(self).module_arena,
            final(self).modules == old(self).modules,
            defs_kept(old(self).defs, final(self).defs),
            old(self).errors@.is_prefix_of(final(self).errors@),
            ribs_ok(final(ribs)@),
            final(ribs)@.len() == old(ribs)@.len(),
            self_ty is None ==> self_paths_reported(old(self).errors@, final(self).errors@, sp_struct_fields(v@)),
            paths_settled(*final(self), pe_struct_fields(v@)),
        decreases v,
    {
        let ghost start = self.errors@;
        let mut i: usize = 0;
        while i < v.len()
            invariant
                self_ty is None ==> self_paths_reported(start, self.errors@, sp_struct_fields(v@.take(i as int))),
                paths_settled(*self, pe_struct_fields(v@.take(i as int))),
                i <= v.len(),
                self.inv(),
                parent.0 < self.module_arena.n_modules(),
                self.module_arena == old(self).module_arena,
                self.modules == old(self).modules,
                defs_kept(old(self).defs, self.defs),
                old(self).errors@.is_prefix_of(self.errors@),
                ribs_ok(ribs@),
                ribs@.len() == old(ribs)@.len(),
            decreases v.len() - i,
        {
            proof {
                assert(decreases_to!(*v => v[i as int]));
            }
            self.late_struct_field(&v[i], ribs, parent, self_ty);
            proof {
                assert(v@.take(i as int + 1).drop_last() =~= v@.take(i as int));
            }
            i = i + 1;
        }
        proof {
            assert(v@.take(v.len() as int) =~= v@);
        }
    }

    fn late_assoc_item_list(&mut self, v: &Vec<AstNode<ast::AssociatedItem>>, ribs: &mut Vec<Rib>, parent: ModuleId, self_ty: Option<SelfTyInfo>)
        requires
            old(self).inv(),
            parent.0 < old(self).module_arena.n_modules(),
            ribs_ok(old(ribs)@),
        ensures
            final(self).inv(),
            final(self).module_arena == old(self).module_arena,
            final(self).modules == old(self).modules,
            defs_kept(old(self).defs, final(self).defs),
            old(self).errors@.is_prefix_of(final(self).errors@),
            ribs_ok(final(ribs)@),
            final(ribs)@.len() == old(ribs)@.len(),
            self_ty is None ==> self_paths_reported(old(self).errors@, final(self).errors@, sp_assoc_items(v@)),
            paths_settled(*final(self), pe_assoc_items(v@)),
        decreases v,
    {
        let ghost start = self.errors@;
        let mut i: usize = 0;
        while i < v.len()
            invariant
                self_ty is None ==> self_paths_reported(start, self.errors@, sp_assoc_items(v@.take(i as int))),
                paths_settled(*self, pe_assoc_items(v@.take(i as int))),
                i <= v.len(),
                self.inv(),
                parent.0 < self.module_arena.n_modules(),
                self.module_arena == old(self).module_arena,
                self.modules == old(self).modules,
                defs_kept(old(self).defs, self.defs),
                old(self).errors@.is_prefix_of(self.errors@),
                ribs_ok(ribs@),
                ribs@.len() == old(ribs)@.len(),
            decreases v.len() - i,
        {
            proof {
                assert(decreases_to!(*v => v[i as int]));
            }
            self.late_assoc_item(&v[i], ribs, parent, self_ty);
            proof {
                assert(v@.take(i as int + 1).drop_last() =~= v@.take(i as int));
            }
            i = i + 1;
        }
        proof {
            assert(v@.take(v.len() as int) =~= v@);
        }
    }

    fn late_path_list(&mut self, v: &Vec<AstNode<ast::Path>>, ribs: &mut Vec<Rib>, parent: ModuleId, self_ty: Option<SelfTyInfo>)
        requires
            old(self).inv(),
            parent.0 < old(self).module_arena.n_modules(),
            ribs_ok(old(ribs)@),
        ensures
            final(self).inv(),
            final(self).module_arena == old(self).module_arena,
            final(self).modules == old(self).modules,
            defs_kept(old(self).defs, final(self).defs),
            old(self).errors@.is_prefix_of(final(self).errors@),
            ribs_ok(final(ribs)@),
            final(ribs)@.len() == old(ribs)@.len(),
            self_ty is None ==> self_paths_reported(old(self).errors@, final(self).errors@, sp_paths(v@)),
            paths_settled(*final(self), pe_paths(v@)),
        decreases v,
    {
        let ghost start = self.errors@;
        let mut i: usize = 0;
        while i < v.len()
            invariant
                self_ty is None ==> self_paths_reported(start, self.errors@, sp_paths(v@.take(i as int))),
                paths_settled(*self, pe_paths(v@.take(i as int))),
                i <= v.len(),
                self.inv(),
                parent.0 < self.module_arena.n_modules(),
                self.module_arena == old(self).module_arena,
                self.modules == old(self).modules,
                defs_kept(old(self).defs, self.defs),
                old(self).errors@.is_prefix_of(self.errors@),
                ribs_ok(ribs@),
                ribs@.len() == old(ribs)@.len(),
            decreases v.len() - i,
        {
            proof {
                assert(decreases_to!(*v => v[i as int]));
            }
            self.late_path(&v[i], ribs, parent, self_ty);
            proof {
                assert(v@.take(i as int + 1).drop_last() =~= v@.take(i as int));
            }
            i = i + 1;
        }
        proof {
            assert(v@.take(v.len() as int) =~= v@);
        }
    }

    fn late_path_segment_list(&mut self, v: &Vec<AstNode<ast::PathSegment>>, ribs: &mut Vec<Rib>, parent: ModuleId, self_ty: Option<SelfTyInfo>)
        requires
            old(self).inv(),
            parent.0 < old(self).module_arena.n_modules(),
            ribs_ok(old(ribs)@),
        ensures
            final(self).inv(),
            final(self).module_arena == old(self).module_arena,
            final(self).modules == old(self).modules,
            defs_kept(old(self).defs, final(self).defs),
            old(self).errors@.is_prefix_of(final(self).errors@),
            ribs_ok(final(ribs)@),
            final(ribs)@.len() == old(ribs)@.len(),
            self_ty is None ==> self_paths_reported(old(self).errors@, final(self).errors@, sp_path_segments(v@)),
            paths_settled(*final(self), pe_path_segments(v@)),
        decreases v,
    {
        let ghost start = self.errors@;
        let mut i: usize = 0;
        while i < v.len()
            invariant
                self_ty is None ==> self_paths_reported(start, self.errors@, sp_path_segments(v@.take(i as int))),
                paths_settled(*self, pe_path_segments(v@.take(i as int))),
                i <= v.len(),
                self.inv(),
                parent.0 < self.module_arena.n_modules(),
                self.module_arena == old(self).module_arena,
                self.modules == old(self).modules,
                defs_kept(old(self).defs, self.defs),
                old(self).errors@.is_prefix_of(self.errors@),
                ribs_ok(ribs@),
                ribs@.len() == old(ribs)@.len(),
            decreases v.len() - i,
        {
            proof {
                assert(decreases_to!(*v => v[i as int]));
            }
            self.late_path_segment(&v[i], ribs, parent, self_ty);
            proof {
                assert(v@.take(i as int + 1).drop_last() =~= v@.take(i as int));
            }
            i = i + 1;
        }
        proof {
            assert(v@.take(v.len() as int) =~= v@);
        }
    }

    fn late_generic_arg_list(&mut self, v: &Vec<AstNode<ast::GenericArg>>, ribs: &mut Vec<Rib>, parent: ModuleId, self_ty: Option<SelfTyInfo>)
        requires
            old(self).inv(),
            parent.0 < old(self).module_arena.n_modules(),
            ribs_ok(old(ribs)@),
        ensures
            final(self).inv(),
            final(self).module_arena == old(self).module_arena,
            final(self).modules == old(self).modules,
            defs_kept(old(self).defs, final(self).defs),
            old(self).errors@.is_prefix_of(final(self).errors@),
            ribs_ok(final(ribs)@),
            final(ribs)@.len() == old(ribs)@.len(),
            self_ty is None ==> self_paths_reported(old(self).errors@, final(self).errors@, sp_generic_args(v@)),
            paths_settled(*final(self), pe_generic_args(v@)),
        decreases v,
    {
        let ghost start = self.errors@;
        let mut i: usize = 0;
        while i < v.len()
            invariant
                self_ty is None ==> self_paths_reported(start, self.errors@, sp_generic_args(v@.take(i as int))),
                paths_settled(*self, pe_generic_args(v@.take(i as int))),
                i <= v.len(),
                self.inv(),
                parent.0 < self.module_arena.n_modules(),
                self.module_arena == old(self).module_arena,
                self.modules == old(self).modules,
                defs_kept(old(self).defs, self.defs),
                old(self).errors@.is_prefix_of(self.errors@),
                ribs_ok(ribs@),
                ribs@.len() == old(ribs)@.len(),
            decreases v.len() - i,
        {
            proof {
                assert(decreases_to!(*v => v[i as int]));
            }
            self.late_generic_arg(&v[i], ribs, parent, self_ty);
            proof {
                assert(v@.take(i as int + 1).drop_last() =~= v@.take(i as int));
            }
            i = i + 1;
        }
        proof {
            assert(v@.take(v.len() as int) =~= v@);
        }
    }

    fn late_struct_expr_field_list(&mut self, v: &Vec<AstNode<ast::StructExprField>>, ribs: &mut Vec<Rib>, parent: ModuleId, self_ty: Option<SelfTyInfo>)
        requires
            old(self).inv(),
            parent.0 < old(self).module_arena.n_modules(),
            ribs_ok(old(ribs)@),
        ensures
            final(self).inv(),
            final(self).module_arena == old(self).module_arena,
            final(self).modules == old(self).modules,
            defs_kept(old(self).defs, final(self).defs),
            old(self).errors@.is_prefix_of(final(self).errors@),
            ribs_ok(final(ribs)@),
            final(ribs)@.len() == old(ribs)@.len(),
            self_ty is None ==> self_paths_reported(old(self).errors@, final(self).errors@, sp_struct_expr_fields(v@)),
            paths_settled(*final(self), pe_struct_expr_fields(v@)),
        decreases v,
    {
        let ghost start = self.errors@;
        let mut i: usize = 0;
        while i < v.len()
            invariant
                self_ty is None ==> self_paths_reported(start, self.errors@, sp_struct_expr_fields(v@.take(i as int))),
                paths_settled(*self, pe_struct_expr_fields(v@.take(i as int))),
                i <= v.len(),
                self.inv(),
                parent.0 < self.module_arena.n_modules(),
                self.module_arena == old(self).module_arena,
                self.modules == old(self).modules,
                defs_kept(old(self).defs, self.defs),
                old(self).errors@.is_prefix_of(self.errors@),
                ribs_ok(ribs@),
                ribs@.len() == old(ribs)@.len(),
            decreases v.len() - i,
        {
            proof {
                assert(decreases_to!(*v => v[i as int]));
            }
            self.late_struct_expr_field(&v[i], ribs, parent, self_ty);
            proof {
                assert(v@.take(i as int + 1).drop_last() =~= v@.take(i as int));
            }
            i = i + 1;
        }
        proof {
            assert(v@.take(v.len() as int) =~= v@);
        }
    }

    fn late_stmt_list(&mut self, v: &Vec<AstNode<ast::Stmt>>, ribs: &mut Vec<Rib>, parent: ModuleId, self_ty: Option<SelfTyInfo>)
        requires
            old(self).inv(),
            parent.0 < old(self).module_arena.n_modules(),
            ribs_ok(old(ribs)@),
        ensures
            final(self).inv(),
            final(self).module_arena == old(self).module_arena,
            final(self).modules == old(self).modules,
            defs_kept(old(self).defs, final(self).defs),
            old(self).errors@.is_prefix_of(final(self).errors@),
            ribs_ok(final(ribs)@),
            final(ribs)@.len() == old(ribs)@.len(),
            self_ty is None ==> self_paths_reported(old(self).errors@, final(self).errors@, sp_stmts(v@)),
            paths_settled(*final(self), pe_stmts(v@)),
        decreases v,
    {
        let ghost start = self.errors@;
        let mut i: usize = 0;
        while i < v.len()
            invariant
                self_ty is None ==> self_paths_reported(start, self.errors@, sp_stmts(v@.take(i as int))),
                paths_settled(*self, pe_stmts(v@.take(i as int))),
                i <= v.len(),
                self.inv(),
                parent.0 < self.module_arena.n_modules(),
                self.module_arena == old(self).module_arena,
                self.modules == old(self).modules,
                defs_kept(old(self).defs, self.defs),
                old(self).errors@.is_prefix_of(self.errors@),
                ribs_ok(ribs@),
                ribs@.len() == old(ribs)@.len(),
            decreases v.len() - i,
        {
            proof {
                assert(decreases_to!(*v => v[i as int]));
            }
            self.late_stmt(&v[i], ribs, parent, self_ty);
            proof {
                assert(v@.take(i as int + 1).drop_last() =~= v@.take(i as int));
            }
            i = i + 1;
        }
        proof {
            assert(v@.take(v.len() as int) =~= v@);
        }
    }

    fn late_ty_list(&mut self, v: &Vec<AstNode<ast::Ty>>, ribs: &mut Vec<Rib>, parent: ModuleId, self_ty: Option<SelfTyInfo>)
        requires
            old(self).inv(),
            parent.0 < old(self).module_arena.n_modules(),
            ribs_ok(old(ribs)@),
        ensures
            final(self).inv(),
            final(self).module_arena == old(self).module_arena,
            final(self).modules == old(self).modules,
            defs_kept(old(self).defs, final(self).defs),
            old(self).errors@.is_prefix_of(final(self).errors@),
            ribs_ok(final(ribs)@),
            final(ribs)@.len() == old(ribs)@.len(),
            self_ty is None ==> self_paths_reported(old(self).errors@, final(self).errors@, sp_tys(v@)),
            paths_settled(*final(self), pe_tys(v@)),
        decreases v,
    {
        let ghost start = self.errors@;
        let mut i: usize = 0;
        while i < v.len()
            invariant
                self_ty is None ==> self_paths_reported(start, self.errors@, sp_tys(v@.take(i as int))),
                paths_settled(*self, pe_tys(v@.take(i as int))),
                i <= v.len(),
                self.inv(),
                parent.0 < self.module_arena.n_modules(),
                self.module_arena == old(self).module_arena,
                self.modules == old(self).modules,
                defs_kept(old(self).defs, self.defs),
                old(self).errors@.is_prefix_of(self.errors@),
                ribs_ok(ribs@),
                ribs@.len() == old(ribs)@.len(),
            decreases v.len() - i,
        {
            proof {
                assert(decreases_to!(*v => v[i as int]));
            }
            self.late_ty(&v[i], ribs, parent, self_ty);
            proof {
                assert(v@.take(i as int + 1).drop_last() =~= v@.take(i as int));
            }
            i = i + 1;
        }
        proof {
            assert(v@.take(v.len() as int) =~= v@);
        }
    }

    fn late_pattern_list(&mut self, v: &Vec<AstNode<ast::Pattern>>, ribs: &mut Vec<Rib>, parent: ModuleId, self_ty: Option<SelfTyInfo>)
        requires
            old(self).inv(),
            parent.0 < old(self).module_arena.n_modules(),
            ribs_ok(old(ribs)@),
        ensures
            final(self).inv(),
            final(self).module_arena == old(self).module_arena,
            final(self).modules == old(self).modules,
            defs_kept(old(self).defs, final(self).defs),
            old(self).errors@.is_prefix_of(final(self).errors@),
            ribs_ok(final(ribs)@),
            final(ribs)@.len() == old(ribs)@.len(),
            self_ty is None ==> self_paths_reported(old(self).errors@, final(self).errors@, sp_patterns(v@)),
            paths_settled(*final(self), pe_patterns(v@)),
        decreases v,
    {
        let ghost start = self.errors@;
        let mut i: usize = 0;
        while i < v.len()
            invariant
                self_ty is None ==> self_paths_reported(start, self.errors@, sp_patterns(v@.take(i as int))),
                paths_settled(*self, pe_patterns(v@.take(i as int))),
                i <= v.len(),
                self.inv(),
                parent.0 < self.module_arena.n_modules(),
                self.module_arena == old(self).module_arena,
                self.modules == old(self).modules,
                defs_kept(old(self).defs, self.defs),
                old(self).errors@.is_prefix_of(self.errors@),
                ribs_ok(ribs@),
                ribs@.len() == old(ribs)@.len(),
            decreases v.len() - i,
        {
            proof {
                assert(decreases_to!(*v => v[i as int]));
            }
            self.late_pattern(&v[i], ribs, parent, self_ty);
            proof {
                assert(v@.take(i as int + 1).drop_last() =~= v@.take(i as int));
            }
            i = i + 1;
        }
        proof {
            assert(v@.take(v.len() as int) =~= v@);
        }
    }

    fn late_pattern_field_list(&mut self, v: &Vec<AstNode<ast::PatternStructField>>, ribs: &mut Vec<Rib>, parent: ModuleId, self_ty: Option<SelfTyInfo>)
        requires
            old(self).inv(),
            parent.0 < old(self).module_arena.n_modules(),
            ribs_ok(old(ribs)@),
        ensures
            final(self).inv(),
            final(self).module_arena == old(self).module_arena,
            final(self).modules == old(self).modules,
            defs_kept(old(self).defs, final(self).defs),
            old(self).errors@.is_prefix_of(final(self).errors@),
            ribs_ok(final(ribs)@),
            final(ribs)@.len() == old(ribs)@.len(),
            self_ty is None ==> self_paths_reported(old(self).errors@, final(self).errors@, sp_pattern_fields(v@)),
            paths_settled(*final(self), pe_pattern_fields(v@)),
        decreases v,
    {
        let ghost start = self.errors@;
        let mut i: usize = 0;
        while i < v.len()
            invariant
                self_ty is None ==> self_paths_reported(start, self.errors@, sp_pattern_fields(v@.take(i as int))),
                paths_settled(*self, pe_pattern_fields(v@.take(i as int))),
                i <= v.len(),
                self.inv(),
                parent.0 < self.module_arena.n_modules(),
                self.module_arena == old(self).module_arena,
                self.modules == old(self).modules,
                defs_kept(old(self).defs, self.defs),
                old(self).errors@.is_prefix_of(self.errors@),
                ribs_ok(ribs@),
                ribs@.len() == old(ribs)@.len(),
            decreases v.len() - i,
        {
            proof {
                assert(decreases_to!(*v => v[i as int]));
            }
            self.late_pattern_field(&v[i], ribs, parent, self_ty);
            proof {
                assert(v@.take(i as int + 1).drop_last() =~= v@.take(i as int));
            }
            i = i + 1;
        }
        proof {
            assert(v@.take(v.len() as int) =~= v@);
        }
    }

    fn late_match_arm_list(&mut self, v: &Vec<AstNode<ast::MatchArm>>, ribs: &mut Vec<Rib>, parent: ModuleId, self_ty: Option<SelfTyInfo>)
        requires
            old(self).inv(),
            parent.0 < old(self).module_arena.n_modules(),
            ribs_ok(old(ribs)@),
        ensures
            final(self).inv(),
            final(self).module_arena == old(self).module_arena,
            final(self).modules == old(self).modules,
            defs_kept(old(self).defs, final(self).defs),
            old(self).errors@.is_prefix_of(final(self).errors@),
            ribs_ok(final(ribs)@),
            final(ribs)@.len() == old(ribs)@.len(),
            self_ty is None ==> self_paths_reported(old(self).errors@, final(self).errors@, sp_match_arms(v@)),
            paths_settled(*final(self), pe_match_arms(v@)),
        decreases v,
    {
        let ghost start = self.errors@;
        let mut i: usize = 0;
        while i < v.len()
            invariant
                self_ty is None ==> self_paths_reported(start, self.errors@, sp_match_arms(v@.take(i as int))),
                paths_settled(*self, pe_match_arms(v@.take(i as int))),
                i <= v.len(),
                self.inv(),
                parent.0 < self.module_arena.n_modules(),
                self.module_arena == old(self).module_arena,
                self.modules == old(self).modules,
                defs_kept(old(self).defs, self.defs),
                old(self).errors@.is_prefix_of(self.errors@),
                ribs_ok(ribs@),
                ribs@.len() == old(ribs)@.len(),
            decreases v.len() - i,
        {
            proof {
                assert(decreases_to!(*v => v[i as int]));
            }
            self.late_match_arm(&v[i], ribs, parent, self_ty);
            proof {
                assert(v@.take(i as int + 1).drop_last() =~= v@.take(i as int));
            }
            i = i + 1;
        }
        proof {
            assert(v@.take(v.len() as int) =~= v@);
        }
    }

    fn late_expr_list(&mut self, v: &Vec<AstNode<ast::Expr>>, ribs: &mut Vec<Rib>, parent: ModuleId, self_ty: Option<SelfTyInfo>)
        requires
            old(self).inv(),
            parent.0 < old(self).module_arena.n_modules(),
            ribs_ok(old(ribs)@),
        ensures
            final(self).inv(),
            final(self).module_arena == old(self).module_arena,
            final(self).modules == old(self).modules,
            defs_kept(old(self).defs, final(self).defs),
            old(self).errors@.is_prefix_of(final(self).errors@),
            ribs_ok(final(ribs)@),
            final(ribs)@.len() == old(ribs)@.len(),
            self_ty is None ==> self_paths_reported(old(self).errors@, final(self).errors@, sp_exprs(v@)),
            paths_settled(*final(self), pe_exprs(v@)),
        decreases v,
    {
        let ghost start = self.errors@;
        let mut i: usize = 0;
        while i < v.len()
            invariant
                self_ty is None ==> self_paths_reported(start, self.errors@, sp_exprs(v@.take(i as int))),
                paths_settled(*self, pe_exprs(v@.take(i as int))),
                i <= v.len(),
                self.inv(),
                parent.0 < self.module_arena.n_modules(),
                self.module_arena == old(self).module_arena,
                self.modules == old(self).modules,
                defs_kept(old(self).defs, self.defs),
                old(self).errors@.is_prefix_of(self.errors@),
                ribs_ok(ribs@),
                ribs@.len() == old(ribs)@.len(),
            decreases v.len() - i,
        {
            proof {
                assert(decreases_to!(*v => v[i as int]));
            }
            self.late_expr(&v[i], ribs, parent, self_ty);
            proof {
                assert(v@.take(i as int + 1).drop_last() =~= v@.take(i as int));
            }
            i = i + 1;
        }
        proof {
            assert(v@.take(v.len() as int) =~= v@);
        }
    }

    fn late_block_stmts(&mut self, id: AstId, v: &Vec<AstNode<ast::Stmt>>, ribs: &mut Vec<Rib>, parent: ModuleId, self_ty: Option<SelfTyInfo>)
        requires
            old(self).inv(),
            parent.0 < old(self).module_arena.n_modules(),
            ribs_ok(old(ribs)@),
        ensures
            final(self).inv(),
            final(self).module_arena == old(self).module_arena,
            final(self).modules == old(self).modules,
            defs_kept(old(self).defs, final(self).defs),
            old(self).errors@.is_prefix_of(final(self).errors@),
            ribs_ok(final(ribs)@),
            final(ribs)@.len() == old(ribs)@.len(),
            self_ty is None ==> self_paths_reported(old(self).errors@, final(self).errors@, sp_stmts(v@)),
            paths_settled(*final(self), pe_stmts(v@)),
        decreases v,
    {
        let block_parent = match self.modules.get(&id.0) {
            Some(m) => *m,
            None => parent,
        };
        let ghost start = self.errors@;
        let mut i: usize = 0;
        while i < v.len()
            invariant
                self_ty is None ==> self_paths_reported(start, self.errors@, sp_stmts(v@.take(i as int))),
                paths_settled(*self, pe_stmts(v@.take(i as int))),
                i <= v.len(),
                self.inv(),
                parent.0 < self.module_arena.n_modules(),
                self.module_arena == old(self).module_arena,
                self.modules == old(self).modules,
                defs_kept(old(self).defs, self.defs),
                old(self).errors@.is_prefix_of(self.errors@),
                ribs_ok(ribs@),
                ribs@.len() == old(ribs)@.len(),
                block_parent.0 < self.module_arena.n_modules(),
            decreases v.len() - i,
        {
            proof {
                assert(decreases_to!(*v => v[i as int]));
            }
            self.late_stmt(&v[i], ribs, block_parent, self_ty);
            proof {
                assert(v@.take(i as int + 1).drop_last() =~= v@.take(i as int));
            }
            i = i + 1;
        }
        proof {
            assert(v@.take(v.len() as int) =~= v@);
        }
        
    }
}


/// A name bound in the innermost rib resolves to that binding, whatever
/// the ribs around it bind: inner bindings shadow outer ones.
pub proof fn law_innermost_rib_shadows(ribs: Seq<Rib>, name: Seq<char>)
    requires
        ribs.len() > 0,
        ribs.last().symbols().contains_key(name),
    ensures
        spec_lookup_ribs(ribs, name) == Some(ribs.last().symbols()[name]),
{
}

/// Opening a rib changes what a name resolves to only where the new rib
/// binds it; a name bound in no rib resolves to nothing.
pub proof fn law_lookup_after_push(ribs: Seq<Rib>, rib: Rib, name: Seq<char>)
    ensures
        rib.symbols().contains_key(name) ==> spec_lookup_ribs(ribs.push(rib), name) == Some(rib.symbols()[name]),
        !rib.symbols().contains_key(name) ==> spec_lookup_ribs(ribs.push(rib), name) == spec_lookup_ribs(ribs, name),
        (forall|i: int| 0 <= i < ribs.len() ==> !(#[trigger] ribs[i]).symbols().contains_key(name)) ==> spec_lookup_ribs(
            ribs,
            name,
        ) is None,
    decreases ribs.len(),
{
    assert(ribs.push(rib).last() == rib);
    assert(ribs.push(rib).drop_last() =~= ribs);
    if ribs.len() > 0 {
        law_lookup_after_push(ribs.drop_last(), ribs.last(), name);
        if forall|i: int| 0 <= i < ribs.len() ==> !(#[trigger] ribs[i]).symbols().contains_key(name) {
            assert(!ribs[ribs.len() - 1].symbols().contains_key(name));
            assert forall|i: int| 0 <= i < ribs.drop_last().len() implies !(#[trigger] ribs.drop_last()[i]).symbols().contains_key(name) by {
                assert(ribs.drop_last()[i] == ribs[i]);
            }
        }
    }
}

} // verus!
