use crate::parser::ast;
use crate::parser::ast::{AstId, AstNode, Ident};
use crate::resolver::resolver::Resolver;
use crate::resolver::defs::DefId;
use crate::resolver::modules::{Binding, Import, ImportId, Module, ModuleId, ModuleKind};
use vstd::prelude::*;

verus! {

/// A binding that refers only to modules and imports that exist.
pub open spec fn binding_in(b: Binding, n_modules: nat, n_imports: nat) -> bool {
    match b {
        Binding::Item(_) => true,
        Binding::Module(m) => m.0 < n_modules,
        Binding::Import(i) => i.0 < n_imports,
    }
}

/// An import made in a module that exists, resolved (if it is) to a
/// binding that refers only to what exists.
pub open spec fn import_in(imp: Import, n_modules: nat, n_imports: nat) -> bool {
    &&& imp.parent_module.0 < n_modules
    &&& match imp.resolved_binding {
        Some(b) => binding_in(b, n_modules, n_imports),
        None => true,
    }
}

/// All modules and imports of a crate. Module 0 is the root; every other
/// module has a parent that was added before it.
pub struct ModuleArena {
    modules: Vec<Module>,
    imports: Vec<Import>,
    root_id: ModuleId,
}

impl ModuleArena {
    pub closed spec fn modules_view(&self) -> Seq<Module> {
        self.modules@
    }

    pub closed spec fn imports_view(&self) -> Seq<Import> {
        self.imports@
    }

    pub closed spec fn spec_root_id(&self) -> ModuleId {
        self.root_id
    }

    pub open spec fn n_modules(&self) -> nat {
        self.modules_view().len()
    }

    pub open spec fn n_imports(&self) -> nat {
        self.imports_view().len()
    }

    pub open spec fn wf(&self) -> bool {
        &&& self.n_modules() >= 1
        &&& self.spec_root_id() == ModuleId(0)
        &&& self.modules_view()[0].spec_parent() is None
        &&& forall|i: int| 0 <= i < self.n_modules() ==> (#[trigger] self.modules_view()[i]).wf()
        &&& forall|i: int|
            0 < i < self.n_modules() ==> ((#[trigger] self.modules_view()[i]).spec_parent() matches Some(
                p,
            ) && p.0 < i)
        &&& forall|i: int, name: Seq<char>|
            0 <= i < self.n_modules() && #[trigger] self.modules_view()[i].items().contains_key(name) ==> binding_in(
                self.modules_view()[i].items()[name],
                self.n_modules(),
                self.n_imports(),
            )
        &&& forall|j: int|
            0 <= j < self.n_imports() ==> import_in(#[trigger] self.imports_view()[j], self.n_modules(), self.n_imports())
    }

    pub fn new() -> (a: ModuleArena)
        ensures
            a.wf(),
            a.n_modules() == 1,
            a.n_imports() == 0,
            a.modules_view()[0].spec_kind() == ModuleKind::Block,
            a.modules_view()[0].items() == Map::<Seq<char>, Binding>::empty(),
    {
        let mut modules: Vec<Module> = Vec::new();
        modules.push(Module::root());
        ModuleArena { modules, root_id: ModuleId(0), imports: Vec::new() }
    }

    pub fn root_id(&self) -> (r: ModuleId)
        ensures
            r == self.spec_root_id(),
    {
        self.root_id
    }

    pub fn get(&self, id: ModuleId) -> (m: &Module)
        requires
            id.0 < self.n_modules(),
        ensures
            *m == self.modules_view()[id.0 as int],
    {
        &self.modules[id.0]
    }

    /// Adds a module under `parent`; its id is the number of modules before.
    pub fn add_module(&mut self, parent: ModuleId, kind: ModuleKind) -> (id: ModuleId)
        requires
            old(self).wf(),
            parent.0 < old(self).n_modules(),
        ensures
            final(self).wf(),
            id.0 == old(self).n_modules(),
            final(self).modules_view() == old(self).modules_view().push(final(self).modules_view()[id.0 as int]),
            final(self).modules_view()[id.0 as int].spec_parent() == Some(parent),
            final(self).modules_view()[id.0 as int].spec_kind() == kind,
            final(self).modules_view()[id.0 as int].items() == Map::<Seq<char>, Binding>::empty(),
            final(self).imports_view() == old(self).imports_view(),
    {
        let id = ModuleId(self.modules.len());
        self.modules.push(Module::new(parent, kind));
        proof {
            assert forall|i: int, name: Seq<char>|
                0 <= i < self.n_modules() && #[trigger] self.modules_view()[i].items().contains_key(name) implies binding_in(
                self.modules_view()[i].items()[name],
                self.n_modules(),
                self.n_imports(),
            ) by {
                if i < old(self).n_modules() {
                    assert(self.modules_view()[i] == old(self).modules_view()[i]);
                }
            }
            assert forall|j: int| 0 <= j < self.n_imports() implies import_in(
                #[trigger] self.imports_view()[j],
                self.n_modules(),
                self.n_imports(),
            ) by {
                assert(import_in(old(self).imports_view()[j], old(self).n_modules(), old(self).n_imports()));
            }
            assert forall|i: int| 0 < i < self.n_modules() implies ((#[trigger] self.modules_view()[i]).spec_parent() matches Some(
                p,
            ) && p.0 < i) by {
                if i < old(self).n_modules() {
                    assert(self.modules_view()[i] == old(self).modules_view()[i]);
                }
            }
        }
        id
    }

    /// Binds `ident` to `binding` in the module `module_id`.
    pub fn define(&mut self, module_id: ModuleId, ident: Ident, binding: Binding)
        requires
            old(self).wf(),
            module_id.0 < old(self).n_modules(),
            binding_in(binding, old(self).n_modules(), old(self).n_imports()),
        ensures
            final(self).wf(),
            final(self).n_modules() == old(self).n_modules(),
            final(self).imports_view() == old(self).imports_view(),
            forall|i: int|
                0 <= i < old(self).n_modules() && i != module_id.0 ==> #[trigger] final(self).modules_view()[i]
                    == old(self).modules_view()[i],
            final(self).modules_view()[module_id.0 as int].items() == old(self).modules_view()[module_id.0 as int].items().insert(
                ident.name@,
                binding,
            ),
            final(self).modules_view()[module_id.0 as int].spec_parent() == old(self).modules_view()[module_id.0 as int].spec_parent(),
            final(self).modules_view()[module_id.0 as int].spec_kind() == old(self).modules_view()[module_id.0 as int].spec_kind(),
    {
        let ghost name = ident.name@;
        self.modules[module_id.0].define(ident, binding);
        proof {
            assert forall|i: int, n: Seq<char>|
                0 <= i < self.n_modules() && #[trigger] self.modules_view()[i].items().contains_key(n) implies binding_in(
                self.modules_view()[i].items()[n],
                self.n_modules(),
                self.n_imports(),
            ) by {
                if i != module_id.0 {
                    assert(self.modules_view()[i] == old(self).modules_view()[i]);
                } else if n != name {
                    assert(old(self).modules_view()[i].items().contains_key(n));
                }
            }
        }
    }

    /// Adds an import; its id is the number of imports before.
    pub fn add_import(&mut self, import: Import) -> (id: ImportId)
        requires
            old(self).wf(),
            import.parent_module.0 < old(self).n_modules(),
            import.resolved_binding is None,
        ensures
            final(self).wf(),
            id.0 == old(self).n_imports(),
            final(self).imports_view() == old(self).imports_view().push(import),
            final(self).modules_view() == old(self).modules_view(),
    {
        let id = ImportId(self.imports.len());
        self.imports.push(import);
        proof {
            assert forall|i: int, name: Seq<char>|
                0 <= i < self.n_modules() && #[trigger] self.modules_view()[i].items().contains_key(name) implies binding_in(
                self.modules_view()[i].items()[name],
                self.n_modules(),
                self.n_imports(),
            ) by {
                assert(binding_in(
                    old(self).modules_view()[i].items()[name],
                    old(self).n_modules(),
                    old(self).n_imports(),
                ));
            }
            assert forall|j: int| 0 <= j < self.n_imports() implies import_in(#[trigger] self.imports_view()[j], self.n_modules(), self.n_imports()) by {
                if j < old(self).n_imports() {
                    assert(self.imports_view()[j] == old(self).imports_view()[j]);
                }
            }
        }
        id
    }

    pub fn get_import(&self, id: ImportId) -> (i: &Import)
        requires
            id.0 < self.n_imports(),
        ensures
            *i == self.imports_view()[id.0 as int],
    {
        &self.imports[id.0]
    }

    /// Records what the import `id` resolved to.
    pub fn set_import_binding(&mut self, id: ImportId, binding: Binding)
        requires
            old(self).wf(),
            id.0 < old(self).n_imports(),
            binding_in(binding, old(self).n_modules(), old(self).n_imports()),
        ensures
            final(self).wf(),
            final(self).modules_view() == old(self).modules_view(),
            final(self).n_imports() == old(self).n_imports(),
            forall|j: int|
                0 <= j < old(self).n_imports() && j != id.0 ==> #[trigger] final(self).imports_view()[j]
                    == old(self).imports_view()[j],
            final(self).imports_view()[id.0 as int].path@ == old(self).imports_view()[id.0 as int].path@,
            final(self).imports_view()[id.0 as int].parent_module == old(self).imports_view()[id.0 as int].parent_module,
            final(self).imports_view()[id.0 as int].resolved_binding == Some(binding),
    {
        self.imports[id.0].resolved_binding = Some(binding);
        proof {
            assert forall|i: int, name: Seq<char>|
                0 <= i < self.n_modules() && #[trigger] self.modules_view()[i].items().contains_key(name) implies binding_in(
                self.modules_view()[i].items()[name],
                self.n_modules(),
                self.n_imports(),
            ) by {
                assert(binding_in(
                    old(self).modules_view()[i].items()[name],
                    old(self).n_modules(),
                    old(self).n_imports(),
                ));
            }
            assert forall|j: int| 0 <= j < self.n_imports() implies import_in(#[trigger] self.imports_view()[j], self.n_modules(), self.n_imports()) by {
                if j != id.0 {
                    assert(self.imports_view()[j] == old(self).imports_view()[j]);
                }
            }
        }
    }
}


/// A copy of an identifier.
pub fn clone_ident(i: &Ident) -> (r: Ident)
    ensures
        r == *i,
{
    Ident { name: i.name.clone() }
}

/// The identifiers of a path's segments, each with the segment's span and id.
pub fn import_path(path: &AstNode<ast::Path>) -> (r: Vec<AstNode<Ident>>)
    ensures
        r@ == path_idents(*path),
        r.len() == path.node.segments.len(),
        forall|i: int|
            0 <= i < r.len() ==> (#[trigger] r@[i]).node == path.node.segments@[i].node.ident.node
                && r@[i].span == path.node.segments@[i].span && r@[i].ast_id == path.node.segments@[i].ast_id,
{
    let segments = &path.node.segments;
    let mut r: Vec<AstNode<Ident>> = Vec::new();
    let mut i: usize = 0;
    while i < segments.len()
        invariant
            i <= segments.len(),
            r.len() == i,
            forall|j: int|
                0 <= j < i ==> (#[trigger] r@[j]).node == segments@[j].node.ident.node && r@[j].span
                    == segments@[j].span && r@[j].ast_id == segments@[j].ast_id,
        decreases segments.len() - i,
    {
        let seg = &segments[i];
        r.push(AstNode::with_id(clone_ident(&seg.node.ident.node), seg.span, seg.ast_id));
        i = i + 1;
    }
    proof {
        assert(r@ =~= path_idents(*path));
    }
    r
}

/// What a walk that opens a module for each of the nodes `s` does to the
/// resolver: modules are only added, the nodes recorded as opening a module
/// are those recorded before and those of `s`, the others keep their module,
/// each node of `s` opens a module added during the walk, and what every
/// walk keeps is kept.
pub open spec fn modules_built(before: Resolver, after: Resolver, s: Set<usize>) -> bool {
    &&& walk_kept(before, after)
    &&& forall|k: usize| #[trigger] after.modules@.contains_key(k) ==> before.modules@.contains_key(k) || s.contains(k)
    &&& forall|k: usize| #[trigger] before.modules@.contains_key(k) && !s.contains(k)
        ==> after.modules@.contains_key(k) && after.modules@[k] == before.modules@[k]
    &&& forall|k: usize| #[trigger] s.contains(k)
        ==> after.modules@.contains_key(k) && before.module_arena.n_modules() <= after.modules@[k].0
}

/// What any walk keeps: modules and imports are only added, the imports
/// waiting to be resolved keep their order, modules keep their parent and
/// kind, and a name bound in a module stays bound.
pub open spec fn walk_kept(before: Resolver, after: Resolver) -> bool {
    &&& before.module_arena.n_modules() <= after.module_arena.n_modules()
    &&& before.unresolved_imports@.len() <= after.unresolved_imports@.len()
    &&& forall|i: int| 0 <= i < before.unresolved_imports@.len()
        ==> #[trigger] after.unresolved_imports@[i] == before.unresolved_imports@[i]
    &&& before.module_arena.n_imports() <= after.module_arena.n_imports()
    &&& forall|j: int| 0 <= j < before.module_arena.n_imports()
        ==> #[trigger] after.module_arena.imports_view()[j] == before.module_arena.imports_view()[j]
    &&& forall|m: int| 0 <= m < before.module_arena.n_modules()
        ==> (#[trigger] after.module_arena.modules_view()[m]).spec_parent() == before.module_arena.modules_view()[m].spec_parent()
            && after.module_arena.modules_view()[m].spec_kind() == before.module_arena.modules_view()[m].spec_kind()
    &&& forall|m: int, name: Seq<char>| 0 <= m < before.module_arena.n_modules()
        && #[trigger] before.module_arena.modules_view()[m].items().contains_key(name)
        ==> after.module_arena.modules_view()[m].items().contains_key(name)
}

/// The name an item binds in the module it stands in, if it binds one.
pub open spec fn item_bound_name(item: ast::Item) -> Option<Seq<char>> {
    match item {
        ast::Item::Fn(f) => Some(f.sig.node.ident.node.name@),
        ast::Item::Struct(x) => Some(x.ident.node.name@),
        ast::Item::Enum(x) => Some(x.ident.node.name@),
        ast::Item::Trait(x) => Some(x.ident.node.name@),
        ast::Item::Mod(x) => Some(x.ident.node.name@),
        ast::Item::Const(x) => Some(x.ident.node.name@),
        ast::Item::ExternFn(f) => Some(f.sig.node.ident.node.name@),
        ast::Item::TyAlias(x) => Some(x.ident.node.name@),
        _ => None,
    }
}

/// The identifiers of a path's segments, each with the segment's span and id.
pub open spec fn path_idents(p: AstNode<ast::Path>) -> Seq<AstNode<Ident>> {
    Seq::new(
        p.node.segments@.len(),
        |i: int|
            AstNode {
                node: p.node.segments@[i].node.ident.node,
                span: p.node.segments@[i].span,
                ast_id: p.node.segments@[i].ast_id,
            },
    )
}

/// Some import waiting to be resolved has the path `path` and was made in
/// the module `parent`.
pub open spec fn import_queued(r: Resolver, path: Seq<AstNode<Ident>>, parent: ModuleId) -> bool {
    exists|k: int|
        0 <= k < r.unresolved_imports@.len() && (#[trigger] r.unresolved_imports@[k]).0 < r.module_arena.n_imports()
            && r.module_arena.imports_view()[r.unresolved_imports@[k].0 as int].path@ == path
            && r.module_arena.imports_view()[r.unresolved_imports@[k].0 as int].parent_module == parent
}

/// What building the item `n` in the module `parent` leaves behind, where
/// the item has a definition: its name is bound in `parent`, a `use` with a
/// path waits to be resolved as an import of `parent`, and a `mod`, enum or
/// trait has a module of its own under `parent`.
pub open spec fn item_built(r: Resolver, n: AstNode<ast::Item>, parent: ModuleId, d: Map<usize, DefId>) -> bool {
    d.contains_key(n.ast_id.0) ==> {
        &&& (item_bound_name(n.node) matches Some(name) ==> r.module_arena.modules_view()[parent.0 as int].items().contains_key(name))
        &&& match n.node {
            ast::Item::Use(u) => u.path.node.segments@.len() > 0 ==> import_queued(r, path_idents(u.path), parent),
            _ => true,
        }
        &&& (n.node is Mod || n.node is Enum || n.node is Trait) ==> module_of_def(r, parent, d[n.ast_id.0])
    }
}

/// Some module under `parent` belongs to the definition `def`.
pub open spec fn module_of_def(r: Resolver, parent: ModuleId, def: DefId) -> bool {
    exists|m: int|
        0 < m < r.module_arena.n_modules() && (#[trigger] r.module_arena.modules_view()[m]).spec_parent() == Some(parent)
            && r.module_arena.modules_view()[m].spec_kind() == ModuleKind::Def(def)
}

/// A later walk keeps what building an item left behind.
proof fn lemma_item_built_kept(a: Resolver, b: Resolver, n: AstNode<ast::Item>, parent: ModuleId, d: Map<usize, DefId>)
    requires
        a.inv(),
        parent.0 < a.module_arena.n_modules(),
        walk_kept(a, b),
        item_built(a, n, parent, d),
    ensures
        item_built(b, n, parent, d),
{
    if d.contains_key(n.ast_id.0) {
        if n.node is Mod || n.node is Enum || n.node is Trait {
            let m = choose|m: int|
                0 < m < a.module_arena.n_modules() && (#[trigger] a.module_arena.modules_view()[m]).spec_parent() == Some(parent)
                    && a.module_arena.modules_view()[m].spec_kind() == ModuleKind::Def(d[n.ast_id.0]);
            assert(b.module_arena.modules_view()[m].spec_parent() == Some(parent));
        }
        if let ast::Item::Use(u) = n.node {
            if u.path.node.segments@.len() > 0 {
                let k = choose|k: int|
                    0 <= k < a.unresolved_imports@.len() && (#[trigger] a.unresolved_imports@[k]).0 < a.module_arena.n_imports()
                        && a.module_arena.imports_view()[a.unresolved_imports@[k].0 as int].path@ == path_idents(u.path)
                        && a.module_arena.imports_view()[a.unresolved_imports@[k].0 as int].parent_module == parent;
                assert(b.unresolved_imports@[k] == a.unresolved_imports@[k]);
                assert(b.module_arena.imports_view()[a.unresolved_imports@[k].0 as int] == a.module_arena.imports_view()[a.unresolved_imports@[k].0 as int]);
            }
        }
    }
}

// The nodes of the syntax tree for which a walk opens a module, given the
// definitions of the nodes: a block, and a `mod`, enum or trait item that
// has a definition. An item without a definition is skipped with all it
// holds.

pub open spec fn mn_item(n: AstNode<ast::Item>, d: Map<usize, DefId>) -> Set<usize>
    decreases n,
{
    if d.contains_key(n.ast_id.0) {
        (if n.node is Mod || n.node is Enum || n.node is Trait { set![n.ast_id.0] } else { Set::<usize>::empty() }).union(match n.node {
        ast::Item::Fn(x) => mn_fn_sig(x.sig, d).union(mn_block(x.body, d)),
        ast::Item::Struct(x) => mn_generic_params(x.generics@, d).union(mn_variant_data(x.data, d)),
        ast::Item::Enum(x) => mn_generic_params(x.generics@, d).union(mn_enum_variants(x.variants@, d)),
        ast::Item::Trait(x) => mn_generic_params(x.generics@, d).union(mn_assoc_items(x.items@, d)),
        ast::Item::Mod(x) => mn_items(x.items@, d),
        ast::Item::Impl(x) => mn_generic_params(x.generics@, d).union(mn_ty(x.self_ty, d)).union(match x.for_trait { Some(x) => mn_path(x, d), None => Set::<usize>::empty() }).union(mn_assoc_items(x.items@, d)),
        ast::Item::ExternFn(x) => mn_fn_sig(x.sig, d),
        ast::Item::Const(x) => mn_generic_params(x.generics@, d).union(match x.type_annotation { Some(x) => mn_ty(x, d), None => Set::<usize>::empty() }).union(mn_expr(x.expr, d)),
        ast::Item::Use(x) => mn_path(x.path, d),
        ast::Item::TyAlias(x) => mn_generic_params(x.generics@, d).union(match x.ty { Some(x) => mn_ty(x, d), None => Set::<usize>::empty() }),
        ast::Item::Error => Set::<usize>::empty(),
    })
    } else {
        Set::<usize>::empty()
    }
}

pub open spec fn mn_fn_sig(n: AstNode<ast::FnSig>, d: Map<usize, DefId>) -> Set<usize>
    decreases n,
{
    mn_generic_params(n.node.generics@, d).union(mn_params(n.node.params@, d)).union(match n.node.return_ty { Some(x) => mn_ty(x, d), None => Set::<usize>::empty() })
}

pub open spec fn mn_generic_param(n: AstNode<ast::GenericParam>, d: Map<usize, DefId>) -> Set<usize>
    decreases n,
{
    mn_paths(n.node.bounds@, d)
}

pub open spec fn mn_param(n: AstNode<ast::Param>, d: Map<usize, DefId>) -> Set<usize>
    decreases n,
{
    mn_pattern(n.node.pattern, d).union(mn_ty(n.node.type_annotation, d))
}

pub open spec fn mn_variant_data(n: AstNode<ast::VariantData>, d: Map<usize, DefId>) -> Set<usize>
    decreases n,
{
    match n.node {
        ast::VariantData::Unit => Set::<usize>::empty(),
        ast::VariantData::Struct { fields } => mn_struct_fields(fields@, d),
        ast::VariantData::Tuple { types } => mn_tys(types@, d),
    }
}

pub open spec fn mn_enum_variant(n: AstNode<ast::EnumVariant>, d: Map<usize, DefId>) -> Set<usize>
    decreases n,
{
    Set::<usize>::empty()
}

pub open spec fn mn_struct_field(n: AstNode<ast::StructFieldDef>, d: Map<usize, DefId>) -> Set<usize>
    decreases n,
{
    mn_ty(n.node.type_annotation, d)
}

pub open spec fn mn_assoc_item(n: AstNode<ast::AssociatedItem>, d: Map<usize, DefId>) -> Set<usize>
    decreases n,
{
    match n.node {
        ast::AssociatedItem::Fn(sig, body) => mn_fn_sig(sig, d).union(match body { Some(x) => mn_block(x, d), None => Set::<usize>::empty() }),
        ast::AssociatedItem::Type(alias) => mn_generic_params(alias.node.generics@, d).union(match alias.node.ty { Some(x) => mn_ty(x, d), None => Set::<usize>::empty() }),
    }
}

pub open spec fn mn_path(n: AstNode<ast::Path>, d: Map<usize, DefId>) -> Set<usize>
    decreases n,
{
    mn_path_segments(n.node.segments@, d)
}

pub open spec fn mn_path_segment(n: AstNode<ast::PathSegment>, d: Map<usize, DefId>) -> Set<usize>
    decreases n,
{
    mn_generic_args(n.node.args@, d)
}

pub open spec fn mn_generic_arg(n: AstNode<ast::GenericArg>, d: Map<usize, DefId>) -> Set<usize>
    decreases n,
{
    match n.node {
        ast::GenericArg::Type(t) => mn_ty(t, d),
        ast::GenericArg::Const(e) => mn_expr(*e, d),
    }
}

pub open spec fn mn_struct_expr_field(n: AstNode<ast::StructExprField>, d: Map<usize, DefId>) -> Set<usize>
    decreases n,
{
    mn_expr(*n.node.expr, d)
}

pub open spec fn mn_stmt(n: AstNode<ast::Stmt>, d: Map<usize, DefId>) -> Set<usize>
    decreases n,
{
    match n.node {
        ast::Stmt::Item(i) => mn_item(i, d),
        ast::Stmt::Let(l) => mn_pattern(l.pat, d).union(match l.type_annotation { Some(x) => mn_ty(x, d), None => Set::<usize>::empty() }).union(match l.expr { Some(x) => mn_expr(*x, d), None => Set::<usize>::empty() }),
        ast::Stmt::Expr(e) => mn_expr(e, d),
        ast::Stmt::Semi(e) => mn_expr(e, d),
        ast::Stmt::Error => Set::<usize>::empty(),
    }
}

pub open spec fn mn_block(n: AstNode<ast::BlockExpr>, d: Map<usize, DefId>) -> Set<usize>
    decreases n,
{
    set![n.ast_id.0].union(mn_stmts(n.node.stmts@, d))
}

pub open spec fn mn_ty(n: AstNode<ast::Ty>, d: Map<usize, DefId>) -> Set<usize>
    decreases n,
{
    match n.node {
        ast::Ty::Path(p) => mn_path(p, d),
        ast::Ty::Array(t, e) => mn_ty(*t, d).union(mn_expr(*e, d)),
        ast::Ty::Ptr(t) => mn_ty(*t, d),
        ast::Ty::Fn(ps, r) => mn_tys(ps@, d).union(match *r { Some(x) => mn_ty(x, d), None => Set::<usize>::empty() }),
        ast::Ty::Tuple(ts) => mn_tys(ts@, d),
    }
}

pub open spec fn mn_pattern(n: AstNode<ast::Pattern>, d: Map<usize, DefId>) -> Set<usize>
    decreases n,
{
    match n.node {
        ast::Pattern::Wildcard => Set::<usize>::empty(),
        ast::Pattern::Or(ps) => mn_patterns(ps@, d),
        ast::Pattern::Path(p) => mn_path(p, d),
        ast::Pattern::Struct(p, fs) => mn_path(p, d).union(mn_pattern_fields(fs@, d)),
        ast::Pattern::TupleStruct(p, ps) => mn_path(p, d).union(mn_patterns(ps@, d)),
        ast::Pattern::Tuple(ps) => mn_patterns(ps@, d),
        ast::Pattern::Expr(e) => mn_expr(*e, d),
        ast::Pattern::Paren(p) => mn_pattern(*p, d),
    }
}

pub open spec fn mn_pattern_field(n: AstNode<ast::PatternStructField>, d: Map<usize, DefId>) -> Set<usize>
    decreases n,
{
    mn_pattern(n.node.pattern, d)
}

pub open spec fn mn_match_arm(n: AstNode<ast::MatchArm>, d: Map<usize, DefId>) -> Set<usize>
    decreases n,
{
    mn_pattern(n.node.pattern, d).union(mn_expr(*n.node.body, d))
}

pub open spec fn mn_expr(n: AstNode<ast::Expr>, d: Map<usize, DefId>) -> Set<usize>
    decreases n,
{
    match n.node {
        ast::Expr::Array(a) => mn_exprs(a.expressions@, d),
        ast::Expr::Struct(s) => mn_path(s.name, d).union(mn_struct_expr_fields(s.fields@, d)),
        ast::Expr::Call(x) => mn_expr(*x.callee, d).union(mn_exprs(x.arguments@, d)),
        ast::Expr::MethodCall(m) => mn_path_segment(m.name, d).union(mn_expr(*m.receiver, d)).union(mn_exprs(m.arguments@, d)),
        ast::Expr::Tuple(t) => mn_exprs(t.expressions@, d),
        ast::Expr::Cast(x) => mn_expr(*x.expr, d).union(mn_ty(x.ty, d)),
        ast::Expr::Return(r) => match r.value { Some(x) => mn_expr(*x, d), None => Set::<usize>::empty() },
        ast::Expr::While(x) => mn_expr(*x.condition, d).union(mn_block(*x.body, d)),
        ast::Expr::Loop(x) => mn_block(*x.body, d),
        ast::Expr::For(x) => mn_pattern(x.pattern, d).union(mn_expr(*x.iterator, d)).union(mn_block(*x.body, d)),
        ast::Expr::Assign(x) => mn_expr(*x.target, d).union(mn_expr(*x.value, d)),
        ast::Expr::AssignOp(x) => mn_expr(*x.target, d).union(mn_expr(*x.value, d)),
        ast::Expr::FieldAccess(x) => mn_expr(*x.target, d),
        ast::Expr::Index(x) => mn_expr(*x.target, d).union(mn_expr(*x.index, d)),
        ast::Expr::Path(p) => mn_path(p.path, d),
        ast::Expr::AddrOf(x) => mn_expr(*x.expr, d),
        ast::Expr::Break(b) => match b.expr { Some(x) => mn_expr(*x, d), None => Set::<usize>::empty() },
        ast::Expr::Continue => Set::<usize>::empty(),
        ast::Expr::Literal(_) => Set::<usize>::empty(),
        ast::Expr::Binary(b) => mn_expr(*b.left, d).union(mn_expr(*b.right, d)),
        ast::Expr::Unary(u) => mn_expr(*u.operand, d),
        ast::Expr::If(i) => mn_expr(*i.condition, d).union(mn_block(*i.then_branch, d)).union(match i.else_branch { Some(x) => mn_block(*x, d), None => Set::<usize>::empty() }),
        ast::Expr::Block(b) => set![n.ast_id.0].union(mn_stmts(b.stmts@, d)),
        ast::Expr::Match(m) => mn_expr(*m.value, d).union(mn_match_arms(m.arms@, d)),
        ast::Expr::Let(_) => Set::<usize>::empty(),
        ast::Expr::Paren(x) => mn_expr(*x, d),
        ast::Expr::Error => Set::<usize>::empty(),
    }
}

pub open spec fn mn_items(s: Seq<AstNode<ast::Item>>, d: Map<usize, DefId>) -> Set<usize>
    decreases s,
{
    if s.len() == 0 {
        Set::<usize>::empty()
    } else {
        mn_items(s.drop_last(), d).union(mn_item(s.last(), d))
    }
}

pub open spec fn mn_generic_params(s: Seq<AstNode<ast::GenericParam>>, d: Map<usize, DefId>) -> Set<usize>
    decreases s,
{
    if s.len() == 0 {
        Set::<usize>::empty()
    } else {
        mn_generic_params(s.drop_last(), d).union(mn_generic_param(s.last(), d))
    }
}

pub open spec fn mn_params(s: Seq<AstNode<ast::Param>>, d: Map<usize, DefId>) -> Set<usize>
    decreases s,
{
    if s.len() == 0 {
        Set::<usize>::empty()
    } else {
        mn_params(s.drop_last(), d).union(mn_param(s.last(), d))
    }
}

pub open spec fn mn_enum_variants(s: Seq<AstNode<ast::EnumVariant>>, d: Map<usize, DefId>) -> Set<usize>
    decreases s,
{
    if s.len() == 0 {
        Set::<usize>::empty()
    } else {
        mn_enum_variants(s.drop_last(), d).union(mn_enum_variant(s.last(), d))
    }
}

pub open spec fn mn_struct_fields(s: Seq<AstNode<ast::StructFieldDef>>, d: Map<usize, DefId>) -> Set<usize>
    decreases s,
{
    if s.len() == 0 {
        Set::<usize>::empty()
    } else {
        mn_struct_fields(s.drop_last(), d).union(mn_struct_field(s.last(), d))
    }
}

pub open spec fn mn_assoc_items(s: Seq<AstNode<ast::AssociatedItem>>, d: Map<usize, DefId>) -> Set<usize>
    decreases s,
{
    if s.len() == 0 {
        Set::<usize>::empty()
    } else {
        mn_assoc_items(s.drop_last(), d).union(mn_assoc_item(s.last(), d))
    }
}

pub open spec fn mn_paths(s: Seq<AstNode<ast::Path>>, d: Map<usize, DefId>) -> Set<usize>
    decreases s,
{
    if s.len() == 0 {
        Set::<usize>::empty()
    } else {
        mn_paths(s.drop_last(), d).union(mn_path(s.last(), d))
    }
}

pub open spec fn mn_path_segments(s: Seq<AstNode<ast::PathSegment>>, d: Map<usize, DefId>) -> Set<usize>
    decreases s,
{
    if s.len() == 0 {
        Set::<usize>::empty()
    } else {
        mn_path_segments(s.drop_last(), d).union(mn_path_segment(s.last(), d))
    }
}

pub open spec fn mn_generic_args(s: Seq<AstNode<ast::GenericArg>>, d: Map<usize, DefId>) -> Set<usize>
    decreases s,
{
    if s.len() == 0 {
        Set::<usize>::empty()
    } else {
        mn_generic_args(s.drop_last(), d).union(mn_generic_arg(s.last(), d))
    }
}

pub open spec fn mn_struct_expr_fields(s: Seq<AstNode<ast::StructExprField>>, d: Map<usize, DefId>) -> Set<usize>
    decreases s,
{
    if s.len() == 0 {
        Set::<usize>::empty()
    } else {
        mn_struct_expr_fields(s.drop_last(), d).union(mn_struct_expr_field(s.last(), d))
    }
}

pub open spec fn mn_stmts(s: Seq<AstNode<ast::Stmt>>, d: Map<usize, DefId>) -> Set<usize>
    decreases s,
{
    if s.len() == 0 {
        Set::<usize>::empty()
    } else {
        mn_stmts(s.drop_last(), d).union(mn_stmt(s.last(), d))
    }
}

pub open spec fn mn_tys(s: Seq<AstNode<ast::Ty>>, d: Map<usize, DefId>) -> Set<usize>
    decreases s,
{
    if s.len() == 0 {
        Set::<usize>::empty()
    } else {
        mn_tys(s.drop_last(), d).union(mn_ty(s.last(), d))
    }
}

pub open spec fn mn_patterns(s: Seq<AstNode<ast::Pattern>>, d: Map<usize, DefId>) -> Set<usize>
    decreases s,
{
    if s.len() == 0 {
        Set::<usize>::empty()
    } else {
        mn_patterns(s.drop_last(), d).union(mn_pattern(s.last(), d))
    }
}

pub open spec fn mn_pattern_fields(s: Seq<AstNode<ast::PatternStructField>>, d: Map<usize, DefId>) -> Set<usize>
    decreases s,
{
    if s.len() == 0 {
        Set::<usize>::empty()
    } else {
        mn_pattern_fields(s.drop_last(), d).union(mn_pattern_field(s.last(), d))
    }
}

pub open spec fn mn_match_arms(s: Seq<AstNode<ast::MatchArm>>, d: Map<usize, DefId>) -> Set<usize>
    decreases s,
{
    if s.len() == 0 {
        Set::<usize>::empty()
    } else {
        mn_match_arms(s.drop_last(), d).union(mn_match_arm(s.last(), d))
    }
}

pub open spec fn mn_exprs(s: Seq<AstNode<ast::Expr>>, d: Map<usize, DefId>) -> Set<usize>
    decreases s,
{
    if s.len() == 0 {
        Set::<usize>::empty()
    } else {
        mn_exprs(s.drop_last(), d).union(mn_expr(s.last(), d))
    }
}

impl Resolver {
    /// Builds the module tree of the crate under the root module: every
    /// `mod`, enum and trait opens a module, every block opens a block
    /// module, names are bound in the module they are defined in, and `use`
    /// items become imports waiting to be resolved.
    pub fn build_modules(&mut self, krate: &ast::Crate)
        requires
            old(self).inv(),
        ensures
            final(self).inv(),
            final(self).defs == old(self).defs,
            final(self).errors == old(self).errors,
            modules_built(*old(self), *final(self), mn_items(krate.items@, old(self).defs.ast_to_def_view())),
            forall|j: int|
                0 <= j < krate.items@.len() ==> item_built(
                    *final(self),
                    #[trigger] krate.items@[j],
                    ModuleId(0),
                    old(self).defs.ast_to_def_view(),
                ),
    {
        let root = self.module_arena.root_id();
        let mut in_impl = false;
        self.build_item_list(&krate.items, root, &mut in_impl);
    }

    fn build_item(&mut self, node: &AstNode<ast::Item>, parent: ModuleId, in_impl: &mut bool)
        requires
            old(self).inv(),
            parent.0 < old(self).module_arena.n_modules(),
        ensures
            final(self).inv(),
            final(self).module_arena.n_modules() >= old(self).module_arena.n_modules(),
            final(self).defs == old(self).defs,
            final(self).errors == old(self).errors,
            modules_built(*old(self), *final(self), mn_item(*node, old(self).defs.ast_to_def_view())),
            item_built(*final(self), *node, parent, old(self).defs.ast_to_def_view()),
            old(self).defs.ast_to_def_view().contains_key(node.ast_id.0) ==> !*final(in_impl),
            !old(self).defs.ast_to_def_view().contains_key(node.ast_id.0) ==> *final(in_impl) == *old(in_impl),
        decreases node,
    {
        let def_id = match self.defs.get_def_from_ast(node.ast_id) {
            Some(d) => *d,
            None => {
                // Every item got a definition when definitions were collected.
                return;
            },
        };
        let mut child_parent = parent;
        match &node.node {
            ast::Item::Mod(m) => {
                let module = self.module_arena.add_module(parent, ModuleKind::Def(def_id));
                self.module_arena.define(parent, clone_ident(&m.ident.node), Binding::Module(module));
                self.insert_module(node.ast_id, module);
                child_parent = module;
            },
            ast::Item::Fn(f) => {
                self.module_arena.define(parent, clone_ident(&f.sig.node.ident.node), Binding::Item(def_id));
            },
            ast::Item::Struct(s) => {
                self.module_arena.define(parent, clone_ident(&s.ident.node), Binding::Item(def_id));
            },
            ast::Item::Enum(e) => {
                let module = self.module_arena.add_module(parent, ModuleKind::Def(def_id));
                self.module_arena.define(parent, clone_ident(&e.ident.node), Binding::Item(def_id));
                self.insert_module(node.ast_id, module);
                child_parent = module;
            },
            ast::Item::Trait(t) => {
                let module = self.module_arena.add_module(parent, ModuleKind::Def(def_id));
                self.module_arena.define(parent, clone_ident(&t.ident.node), Binding::Item(def_id));
                self.insert_module(node.ast_id, module);
                child_parent = module;
            },
            ast::Item::Const(c) => {
                self.module_arena.define(parent, clone_ident(&c.ident.node), Binding::Item(def_id));
            },
            ast::Item::ExternFn(f) => {
                self.module_arena.define(parent, clone_ident(&f.sig.node.ident.node), Binding::Item(def_id));
            },
            ast::Item::Use(u) => {
                let path = import_path(&u.path);
                if path.len() > 0 {
                    let import_id = self.module_arena.add_import(Import::new(path, parent));
                    self.unresolved_imports.push(import_id);
                }
            },
            ast::Item::TyAlias(a) => {
                self.module_arena.define(parent, clone_ident(&a.ident.node), Binding::Item(def_id));
            },
            ast::Item::Impl(_) => {
                *in_impl = true;
            },
            ast::Item::Error => {},
        }
        proof {
            assert(modules_built(*old(self), *self,
                if node.node is Mod || node.node is Enum || node.node is Trait { set![node.ast_id.0] } else { Set::<usize>::empty() }));
            if node.node is Use && node.node->Use_0.path.node.segments@.len() > 0 {
                let k = self.unresolved_imports@.len() - 1;
                assert(self.unresolved_imports@[k].0 < self.module_arena.n_imports());
            }
            if node.node is Mod || node.node is Enum || node.node is Trait {
                assert(self.module_arena.modules_view()[child_parent.0 as int].spec_parent() == Some(parent));
                assert(self.module_arena.modules_view()[child_parent.0 as int].spec_kind() == ModuleKind::Def(def_id));
                assert(module_of_def(*self, parent, def_id));
            }
            assert(item_built(*self, *node, parent, self.defs.ast_to_def_view()));
        }
        let ghost mid = *self;
        match &node.node {
            ast::Item::Fn(f) => { self.build_fn_sig(&f.sig, child_parent, in_impl); self.build_block(&f.body, child_parent, in_impl); },
            ast::Item::Struct(s) => { self.build_generic_param_list(&s.generics, child_parent, in_impl); self.build_variant_data(&s.data, child_parent, in_impl); },
            ast::Item::Enum(e) => { self.build_generic_param_list(&e.generics, child_parent, in_impl); self.build_enum_variant_list(&e.variants, child_parent, in_impl); },
            ast::Item::Trait(t) => { self.build_generic_param_list(&t.generics, child_parent, in_impl); self.build_assoc_item_list(&t.items, child_parent, in_impl); },
            ast::Item::Mod(m) => { self.build_item_list(&m.items, child_parent, in_impl); },
            ast::Item::Impl(i) => { self.build_generic_param_list(&i.generics, child_parent, in_impl); self.build_ty(&i.self_ty, child_parent, in_impl); match &i.for_trait { Some(x) => { self.build_path(x, child_parent, in_impl); }, None => {} } self.build_assoc_item_list(&i.items, child_parent, in_impl); },
            ast::Item::ExternFn(f) => { self.build_fn_sig(&f.sig, child_parent, in_impl); },
            ast::Item::Const(k) => { self.build_generic_param_list(&k.generics, child_parent, in_impl); match &k.type_annotation { Some(x) => { self.build_ty(x, child_parent, in_impl); }, None => {} } self.build_expr(&k.expr, child_parent, in_impl); },
            ast::Item::Use(u) => { self.build_path(&u.path, child_parent, in_impl); },
            ast::Item::TyAlias(a) => { self.build_generic_param_list(&a.generics, child_parent, in_impl); match &a.ty { Some(x) => { self.build_ty(x, child_parent, in_impl); }, None => {} } },
            ast::Item::Error => {},
        }
        proof {
            lemma_item_built_kept(mid, *self, *node, parent, old(self).defs.ast_to_def_view());
        }
        *in_impl = false;
    }

    fn build_fn_sig(&mut self, node: &AstNode<ast::FnSig>, parent: ModuleId, in_impl: &mut bool)
        requires
            old(self).inv(),
            parent.0 < old(self).module_arena.n_modules(),
        ensures
            final(self).inv(),
            final(self).module_arena.n_modules() >= old(self).module_arena.n_modules(),
            final(self).defs == old(self).defs,
            final(self).errors == old(self).errors,
            modules_built(*old(self), *final(self), mn_fn_sig(*node, old(self).defs.ast_to_def_view())),
        decreases node,
    {
        self.build_generic_param_list(&node.node.generics, parent, in_impl); self.build_param_list(&node.node.params, parent, in_impl); match &node.node.return_ty { Some(x) => { self.build_ty(x, parent, in_impl); }, None => {} }
    }

    fn build_generic_param(&mut self, node: &AstNode<ast::GenericParam>, parent: ModuleId, in_impl: &mut bool)
        requires
            old(self).inv(),
            parent.0 < old(self).module_arena.n_modules(),
        ensures
            final(self).inv(),
            final(self).module_arena.n_modules() >= old(self).module_arena.n_modules(),
            final(self).defs == old(self).defs,
            final(self).errors == old(self).errors,
            modules_built(*old(self), *final(self), mn_generic_param(*node, old(self).defs.ast_to_def_view())),
        decreases node,
    {
        self.build_path_list(&node.node.bounds, parent, in_impl);
    }

    fn build_param(&mut self, node: &AstNode<ast::Param>, parent: ModuleId, in_impl: &mut bool)
        requires
            old(self).inv(),
            parent.0 < old(self).module_arena.n_modules(),
        ensures
            final(self).inv(),
            final(self).module_arena.n_modules() >= old(self).module_arena.n_modules(),
            final(self).defs == old(self).defs,
            final(self).errors == old(self).errors,
            modules_built(*old(self), *final(self), mn_param(*node, old(self).defs.ast_to_def_view())),
        decreases node,
    {
        self.build_pattern(&node.node.pattern, parent, in_impl); self.build_ty(&node.node.type_annotation, parent, in_impl);
    }

    fn build_variant_data(&mut self, node: &AstNode<ast::VariantData>, parent: ModuleId, in_impl: &mut bool)
        requires
            old(self).inv(),
            parent.0 < old(self).module_arena.n_modules(),
        ensures
            final(self).inv(),
            final(self).module_arena.n_modules() >= old(self).module_arena.n_modules(),
            final(self).defs == old(self).defs,
            final(self).errors == old(self).errors,
            modules_built(*old(self), *final(self), mn_variant_data(*node, old(self).defs.ast_to_def_view())),
        decreases node,
    {
        match &node.node {
            ast::VariantData::Unit => {},
            ast::VariantData::Struct { fields } => { self.build_struct_field_list(fields, parent, in_impl); },
            ast::VariantData::Tuple { types } => { self.build_ty_list(types, parent, in_impl); },
        }
    }

    fn build_enum_variant(&mut self, node: &AstNode<ast::EnumVariant>, parent: ModuleId, in_impl: &mut bool)
        requires
            old(self).inv(),
            parent.0 < old(self).module_arena.n_modules(),
        ensures
            final(self).inv(),
            final(self).module_arena.n_modules() >= old(self).module_arena.n_modules(),
            final(self).defs == old(self).defs,
            final(self).errors == old(self).errors,
            modules_built(*old(self), *final(self), mn_enum_variant(*node, old(self).defs.ast_to_def_view())),
            final(self).module_arena.n_modules() == old(self).module_arena.n_modules(),
            final(self).module_arena.imports_view() == old(self).module_arena.imports_view(),
            forall|m: int| 0 <= m < old(self).module_arena.n_modules() && m != parent.0
                ==> #[trigger] final(self).module_arena.modules_view()[m] == old(self).module_arena.modules_view()[m],
            final(self).module_arena.modules_view()[parent.0 as int].items() == if old(self).defs.ast_to_def_view().contains_key(node.ast_id.0) {
                old(self).module_arena.modules_view()[parent.0 as int].items().insert(
                    node.node.ident.node.name@,
                    Binding::Item(old(self).defs.ast_to_def_view()[node.ast_id.0]),
                )
            } else {
                old(self).module_arena.modules_view()[parent.0 as int].items()
            },
        decreases node,
    {
        match self.defs.get_def_from_ast(node.ast_id) {
            Some(d) => {
                let d = *d;
                self.module_arena.define(parent, clone_ident(&node.node.ident.node), Binding::Item(d));
            },
            None => {},
        }
    }

    fn build_struct_field(&mut self, node: &AstNode<ast::StructFieldDef>, parent: ModuleId, in_impl: &mut bool)
        requires
            old(self).inv(),
            parent.0 < old(self).module_arena.n_modules(),
        ensures
            final(self).inv(),
            final(self).module_arena.n_modules() >= old(self).module_arena.n_modules(),
            final(self).defs == old(self).defs,
            final(self).errors == old(self).errors,
            modules_built(*old(self), *final(self), mn_struct_field(*node, old(self).defs.ast_to_def_view())),
        decreases node,
    {
        self.build_ty(&node.node.type_annotation, parent, in_impl);
    }

    fn build_assoc_item(&mut self, node: &AstNode<ast::AssociatedItem>, parent: ModuleId, in_impl: &mut bool)
        requires
            old(self).inv(),
            parent.0 < old(self).module_arena.n_modules(),
        ensures
            final(self).inv(),
            final(self).module_arena.n_modules() >= old(self).module_arena.n_modules(),
            final(self).defs == old(self).defs,
            final(self).errors == old(self).errors,
            modules_built(*old(self), *final(self), mn_assoc_item(*node, old(self).defs.ast_to_def_view())),
        decreases node,
    {
        if !*in_impl {
            let ident = match &node.node {
                ast::AssociatedItem::Fn(sig, _) => clone_ident(&sig.node.ident.node),
                ast::AssociatedItem::Type(alias) => clone_ident(&alias.node.ident.node),
            };
            match self.defs.get_def_from_ast(node.ast_id) {
                Some(d) => {
                    let d = *d;
                    self.module_arena.define(parent, ident, Binding::Item(d));
                },
                None => {},
            }
        }
        proof {
            assert(modules_built(*old(self), *self, Set::<usize>::empty()));
        }
        match &node.node {
            ast::AssociatedItem::Fn(sig, body) => { self.build_fn_sig(sig, parent, in_impl); match body { Some(x) => { self.build_block(x, parent, in_impl); }, None => {} } },
            ast::AssociatedItem::Type(alias) => { self.build_generic_param_list(&alias.node.generics, parent, in_impl); match &alias.node.ty { Some(x) => { self.build_ty(x, parent, in_impl); }, None => {} } },
        }
    }

    fn build_path(&mut self, node: &AstNode<ast::Path>, parent: ModuleId, in_impl: &mut bool)
        requires
            old(self).inv(),
            parent.0 < old(self).module_arena.n_modules(),
        ensures
            final(self).inv(),
            final(self).module_arena.n_modules() >= old(self).module_arena.n_modules(),
            final(self).defs == old(self).defs,
            final(self).errors == old(self).errors,
            modules_built(*old(self), *final(self), mn_path(*node, old(self).defs.ast_to_def_view())),
        decreases node,
    {
        self.build_path_segment_list(&node.node.segments, parent, in_impl);
    }

    fn build_path_segment(&mut self, node: &AstNode<ast::PathSegment>, parent: ModuleId, in_impl: &mut bool)
        requires
            old(self).inv(),
            parent.0 < old(self).module_arena.n_modules(),
        ensures
            final(self).inv(),
            final(self).module_arena.n_modules() >= old(self).module_arena.n_modules(),
            final(self).defs == old(self).defs,
            final(self).errors == old(self).errors,
            modules_built(*old(self), *final(self), mn_path_segment(*node, old(self).defs.ast_to_def_view())),
        decreases node,
    {
        self.build_generic_arg_list(&node.node.args, parent, in_impl);
    }

    fn build_generic_arg(&mut self, node: &AstNode<ast::GenericArg>, parent: ModuleId, in_impl: &mut bool)
        requires
            old(self).inv(),
            parent.0 < old(self).module_arena.n_modules(),
        ensures
            final(self).inv(),
            final(self).module_arena.n_modules() >= old(self).module_arena.n_modules(),
            final(self).defs == old(self).defs,
            final(self).errors == old(self).errors,
            modules_built(*old(self), *final(self), mn_generic_arg(*node, old(self).defs.ast_to_def_view())),
        decreases node,
    {
        match &node.node {
            ast::GenericArg::Type(t) => { self.build_ty(t, parent, in_impl); },
            ast::GenericArg::Const(e) => { self.build_expr(e, parent, in_impl); },
        }
    }

    fn build_struct_expr_field(&mut self, node: &AstNode<ast::StructExprField>, parent: ModuleId, in_impl: &mut bool)
        requires
            old(self).inv(),
            parent.0 < old(self).module_arena.n_modules(),
        ensures
            final(self).inv(),
            final(self).module_arena.n_modules() >= old(self).module_arena.n_modules(),
            final(self).defs == old(self).defs,
            final(self).errors == old(self).errors,
            modules_built(*old(self), *final(self), mn_struct_expr_field(*node, old(self).defs.ast_to_def_view())),
        decreases node,
    {
        self.build_expr(&node.node.expr, parent, in_impl);
    }

    fn build_stmt(&mut self, node: &AstNode<ast::Stmt>, parent: ModuleId, in_impl: &mut bool)
        requires
            old(self).inv(),
            parent.0 < old(self).module_arena.n_modules(),
        ensures
            final(self).inv(),
            final(self).module_arena.n_modules() >= old(self).module_arena.n_modules(),
            final(self).defs == old(self).defs,
            final(self).errors == old(self).errors,
            modules_built(*old(self), *final(self), mn_stmt(*node, old(self).defs.ast_to_def_view())),
        decreases node,
    {
        match &node.node {
            ast::Stmt::Item(item) => { self.build_item(item, parent, in_impl); },
            ast::Stmt::Let(l) => { self.build_pattern(&l.pat, parent, in_impl); match &l.type_annotation { Some(x) => { self.build_ty(x, parent, in_impl); }, None => {} } match &l.expr { Some(x) => { self.build_expr(x, parent, in_impl); }, None => {} } },
            ast::Stmt::Expr(e) => { self.build_expr(e, parent, in_impl); },
            ast::Stmt::Semi(e) => { self.build_expr(e, parent, in_impl); },
            ast::Stmt::Error => {},
        }
    }

    fn build_block(&mut self, node: &AstNode<ast::BlockExpr>, parent: ModuleId, in_impl: &mut bool)
        requires
            old(self).inv(),
            parent.0 < old(self).module_arena.n_modules(),
        ensures
            final(self).inv(),
            final(self).module_arena.n_modules() >= old(self).module_arena.n_modules(),
            final(self).defs == old(self).defs,
            final(self).errors == old(self).errors,
            modules_built(*old(self), *final(self), mn_block(*node, old(self).defs.ast_to_def_view())),
        decreases node,
    {
        self.build_block_stmts(node.ast_id, &node.node.stmts, parent, in_impl);
    }

    fn build_ty(&mut self, node: &AstNode<ast::Ty>, parent: ModuleId, in_impl: &mut bool)
        requires
            old(self).inv(),
            parent.0 < old(self).module_arena.n_modules(),
        ensures
            final(self).inv(),
            final(self).module_arena.n_modules() >= old(self).module_arena.n_modules(),
            final(self).defs == old(self).defs,
            final(self).errors == old(self).errors,
            modules_built(*old(self), *final(self), mn_ty(*node, old(self).defs.ast_to_def_view())),
        decreases node,
    {
        match &node.node {
            ast::Ty::Path(p) => { self.build_path(p, parent, in_impl); },
            ast::Ty::Array(t, e) => { self.build_ty(t, parent, in_impl); self.build_expr(e, parent, in_impl); },
            ast::Ty::Ptr(t) => { self.build_ty(t, parent, in_impl); },
            ast::Ty::Fn(params, ret) => { self.build_ty_list(params, parent, in_impl); match &**ret { Some(r) => { self.build_ty(r, parent, in_impl); }, None => {} } },
            ast::Ty::Tuple(tys) => { self.build_ty_list(tys, parent, in_impl); },
        }
    }

    fn build_pattern(&mut self, node: &AstNode<ast::Pattern>, parent: ModuleId, in_impl: &mut bool)
        requires
            old(self).inv(),
            parent.0 < old(self).module_arena.n_modules(),
        ensures
            final(self).inv(),
            final(self).module_arena.n_modules() >= old(self).module_arena.n_modules(),
            final(self).defs == old(self).defs,
            final(self).errors == old(self).errors,
            modules_built(*old(self), *final(self), mn_pattern(*node, old(self).defs.ast_to_def_view())),
        decreases node,
    {
        match &node.node {
            ast::Pattern::Wildcard => {},
            ast::Pattern::Or(ps) => { self.build_pattern_list(ps, parent, in_impl); },
            ast::Pattern::Path(p) => { self.build_path(p, parent, in_impl); },
            ast::Pattern::Struct(p, fields) => { self.build_path(p, parent, in_impl); self.build_pattern_field_list(fields, parent, in_impl); },
            ast::Pattern::TupleStruct(p, ps) => { self.build_path(p, parent, in_impl); self.build_pattern_list(ps, parent, in_impl); },
            ast::Pattern::Tuple(ps) => { self.build_pattern_list(ps, parent, in_impl); },
            ast::Pattern::Expr(e) => { self.build_expr(e, parent, in_impl); },
            ast::Pattern::Paren(p) => { self.build_pattern(p, parent, in_impl); },
        }
    }

    fn build_pattern_field(&mut self, node: &AstNode<ast::PatternStructField>, parent: ModuleId, in_impl: &mut bool)
        requires
            old(self).inv(),
            parent.0 < old(self).module_arena.n_modules(),
        ensures
            final(self).inv(),
            final(self).module_arena.n_modules() >= old(self).module_arena.n_modules(),
            final(self).defs == old(self).defs,
            final(self).errors == old(self).errors,
            modules_built(*old(self), *final(self), mn_pattern_field(*node, old(self).defs.ast_to_def_view())),
        decreases node,
    {
        self.build_pattern(&node.node.pattern, parent, in_impl);
    }

    fn build_match_arm(&mut self, node: &AstNode<ast::MatchArm>, parent: ModuleId, in_impl: &mut bool)
        requires
            old(self).inv(),
            parent.0 < old(self).module_arena.n_modules(),
        ensures
            final(self).inv(),
            final(self).module_arena.n_modules() >= old(self).module_arena.n_modules(),
            final(self).defs == old(self).defs,
            final(self).errors == old(self).errors,
            modules_built(*old(self), *final(self), mn_match_arm(*node, old(self).defs.ast_to_def_view())),
        decreases node,
    {
        self.build_pattern(&node.node.pattern, parent, in_impl); self.build_expr(&node.node.body, parent, in_impl);
    }

    fn build_expr(&mut self, node: &AstNode<ast::Expr>, parent: ModuleId, in_impl: &mut bool)
        requires
            old(self).inv(),
            parent.0 < old(self).module_arena.n_modules(),
        ensures
            final(self).inv(),
            final(self).module_arena.n_modules() >= old(self).module_arena.n_modules(),
            final(self).defs == old(self).defs,
            final(self).errors == old(self).errors,
            modules_built(*old(self), *final(self), mn_expr(*node, old(self).defs.ast_to_def_view())),
        decreases node,
    {
        match &node.node {
            ast::Expr::Array(a) => { self.build_expr_list(&a.expressions, parent, in_impl); },
            ast::Expr::Struct(s) => { self.build_path(&s.name, parent, in_impl); self.build_struct_expr_field_list(&s.fields, parent, in_impl); },
            ast::Expr::Call(x) => { self.build_expr(&x.callee, parent, in_impl); self.build_expr_list(&x.arguments, parent, in_impl); },
            ast::Expr::MethodCall(m) => { self.build_path_segment(&m.name, parent, in_impl); self.build_expr(&m.receiver, parent, in_impl); self.build_expr_list(&m.arguments, parent, in_impl); },
            ast::Expr::Tuple(t) => { self.build_expr_list(&t.expressions, parent, in_impl); },
            ast::Expr::Cast(x) => { self.build_expr(&x.expr, parent, in_impl); self.build_ty(&x.ty, parent, in_impl); },
            ast::Expr::Return(r) => { match &r.value { Some(x) => { self.build_expr(x, parent, in_impl); }, None => {} } },
            ast::Expr::While(x) => { self.build_expr(&x.condition, parent, in_impl); self.build_block(&x.body, parent, in_impl); },
            ast::Expr::Loop(x) => { self.build_block(&x.body, parent, in_impl); },
            ast::Expr::For(x) => { self.build_pattern(&x.pattern, parent, in_impl); self.build_expr(&x.iterator, parent, in_impl); self.build_block(&x.body, parent, in_impl); },
            ast::Expr::Assign(x) => { self.build_expr(&x.target, parent, in_impl); self.build_expr(&x.value, parent, in_impl); },
            ast::Expr::AssignOp(x) => { self.build_expr(&x.target, parent, in_impl); self.build_expr(&x.value, parent, in_impl); },
            ast::Expr::FieldAccess(x) => { self.build_expr(&x.target, parent, in_impl); },
            ast::Expr::Index(x) => { self.build_expr(&x.target, parent, in_impl); self.build_expr(&x.index, parent, in_impl); },
            ast::Expr::Path(p) => { self.build_path(&p.path, parent, in_impl); },
            ast::Expr::AddrOf(x) => { self.build_expr(&x.expr, parent, in_impl); },
            ast::Expr::Break(b) => { match &b.expr { Some(x) => { self.build_expr(x, parent, in_impl); }, None => {} } },
            ast::Expr::Continue => {},
            ast::Expr::Literal(_) => {},
            ast::Expr::Binary(b) => { self.build_expr(&b.left, parent, in_impl); self.build_expr(&b.right, parent, in_impl); },
            ast::Expr::Unary(u) => { self.build_expr(&u.operand, parent, in_impl); },
            ast::Expr::If(i) => { self.build_expr(&i.condition, parent, in_impl); self.build_block(&i.then_branch, parent, in_impl); match &i.else_branch { Some(b) => { self.build_block(b, parent, in_impl); }, None => {} } },
            ast::Expr::Block(b) => { self.build_block_stmts(node.ast_id, &b.stmts, parent, in_impl); },
            ast::Expr::Match(m) => { self.build_expr(&m.value, parent, in_impl); self.build_match_arm_list(&m.arms, parent, in_impl); },
            ast::Expr::Let(_) => {},
            ast::Expr::Paren(x) => { self.build_expr(x, parent, in_impl); },
            ast::Expr::Error => {},
        }
    }

    #[verifier::rlimit(30)]
    fn build_item_list(&mut self, v: &Vec<AstNode<ast::Item>>, parent: ModuleId, in_impl: &mut bool)
        requires
            old(self).inv(),
            parent.0 < old(self).module_arena.n_modules(),
        ensures
            final(self).inv(),
            final(self).module_arena.n_modules() >= old(self).module_arena.n_modules(),
            final(self).defs == old(self).defs,
            final(self).errors == old(self).errors,
            modules_built(*old(self), *final(self), mn_items(v@, old(self).defs.ast_to_def_view())),
            forall|j: int| 0 <= j < v@.len() ==> item_built(*final(self), #[trigger] v@[j], parent, old(self).defs.ast_to_def_view()),
        decreases v,
    {
        let ghost start = *self;
        let ghost d = old(self).defs.ast_to_def_view();
        let mut i: usize = 0;
        while i < v.len()
            invariant
                i <= v.len(),
                self.inv(),
                parent.0 < self.module_arena.n_modules(),
                self.module_arena.n_modules() >= old(self).module_arena.n_modules(),
                self.defs == old(self).defs,
                self.errors == old(self).errors,
                d == old(self).defs.ast_to_def_view(),
                modules_built(start, *self, mn_items(v@.take(i as int), old(self).defs.ast_to_def_view())),
                forall|j: int| 0 <= j < i ==> item_built(*self, #[trigger] v@[j], parent, d),
            decreases v.len() - i,
        {
            proof {
                assert(decreases_to!(*v => v[i as int]));
            }
            let ghost before = *self;
            self.build_item(&v[i], parent, in_impl);
            proof {
                assert forall|j: int| 0 <= j < i + 1 implies item_built(*self, #[trigger] v@[j], parent, d) by {
                    if j < i {
                        lemma_item_built_kept(before, *self, v@[j], parent, d);
                    }
                }
                assert(v@.take(i as int + 1).drop_last() =~= v@.take(i as int));
            }
            i = i + 1;
        }
        proof {
            assert(v@.take(v.len() as int) =~= v@);
        }
    }

    #[verifier::rlimit(30)]
    fn build_generic_param_list(&mut self, v: &Vec<AstNode<ast::GenericParam>>, parent: ModuleId, in_impl: &mut bool)
        requires
            old(self).inv(),
            parent.0 < old(self).module_arena.n_modules(),
        ensures
            final(self).inv(),
            final(self).module_arena.n_modules() >= old(self).module_arena.n_modules(),
            final(self).defs == old(self).defs,
            final(self).errors == old(self).errors,
            modules_built(*old(self), *final(self), mn_generic_params(v@, old(self).defs.ast_to_def_view())),
        decreases v,
    {
        let ghost start = *self;
        let mut i: usize = 0;
        while i < v.len()
            invariant
                i <= v.len(),
                self.inv(),
                parent.0 < self.module_arena.n_modules(),
                self.module_arena.n_modules() >= old(self).module_arena.n_modules(),
                self.defs == old(self).defs,
                self.errors == old(self).errors,
                modules_built(start, *self, mn_generic_params(v@.take(i as int), old(self).defs.ast_to_def_view())),
            decreases v.len() - i,
        {
            proof {
                assert(decreases_to!(*v => v[i as int]));
            }
            self.build_generic_param(&v[i], parent, in_impl);
            proof {
                assert(v@.take(i as int + 1).drop_last() =~= v@.take(i as int));
            }
            i = i + 1;
        }
        proof {
            assert(v@.take(v.len() as int) =~= v@);
        }
    }

    #[verifier::rlimit(30)]
    fn build_param_list(&mut self, v: &Vec<AstNode<ast::Param>>, parent: ModuleId, in_impl: &mut bool)
        requires
            old(self).inv(),
            parent.0 < old(self).module_arena.n_modules(),
        ensures
            final(self).inv(),
            final(self).module_arena.n_modules() >= old(self).module_arena.n_modules(),
            final(self).defs == old(self).defs,
            final(self).errors == old(self).errors,
            modules_built(*old(self), *final(self), mn_params(v@, old(self).defs.ast_to_def_view())),
        decreases v,
    {
        let ghost start = *self;
        let mut i: usize = 0;
        while i < v.len()
            invariant
                i <= v.len(),
                self.inv(),
                parent.0 < self.module_arena.n_modules(),
                self.module_arena.n_modules() >= old(self).module_arena.n_modules(),
                self.defs == old(self).defs,
                self.errors == old(self).errors,
                modules_built(start, *self, mn_params(v@.take(i as int), old(self).defs.ast_to_def_view())),
            decreases v.len() - i,
        {
            proof {
                assert(decreases_to!(*v => v[i as int]));
            }
            self.build_param(&v[i], parent, in_impl);
            proof {
                assert(v@.take(i as int + 1).drop_last() =~= v@.take(i as int));
            }
            i = i + 1;
        }
        proof {
            assert(v@.take(v.len() as int) =~= v@);
        }
    }

    #[verifier::rlimit(30)]
    fn build_enum_variant_list(&mut self, v: &Vec<AstNode<ast::EnumVariant>>, parent: ModuleId, in_impl: &mut bool)
        requires
            old(self).inv(),
            parent.0 < old(self).module_arena.n_modules(),
        ensures
            final(self).inv(),
            final(self).module_arena.n_modules() >= old(self).module_arena.n_modules(),
            final(self).defs == old(self).defs,
            final(self).errors == old(self).errors,
            modules_built(*old(self), *final(self), mn_enum_variants(v@, old(self).defs.ast_to_def_view())),
            final(self).module_arena.n_modules() == old(self).module_arena.n_modules(),
            forall|m: int| 0 <= m < old(self).module_arena.n_modules() && m != parent.0
                ==> #[trigger] final(self).module_arena.modules_view()[m] == old(self).module_arena.modules_view()[m],
            forall|k: Seq<char>| old(self).module_arena.modules_view()[parent.0 as int].items().contains_key(k)
                ==> #[trigger] final(self).module_arena.modules_view()[parent.0 as int].items().contains_key(k),
            forall|j: int| 0 <= j < v@.len() && old(self).defs.ast_to_def_view().contains_key(#[trigger] v@[j].ast_id.0)
                ==> final(self).module_arena.modules_view()[parent.0 as int].items().contains_key(v@[j].node.ident.node.name@),
        decreases v,
    {
        let ghost start = *self;
        let mut i: usize = 0;
        while i < v.len()
            invariant
                i <= v.len(),
                self.inv(),
                parent.0 < self.module_arena.n_modules(),
                self.module_arena.n_modules() >= old(self).module_arena.n_modules(),
                self.defs == old(self).defs,
                self.errors == old(self).errors,
                modules_built(start, *self, mn_enum_variants(v@.take(i as int), old(self).defs.ast_to_def_view())),
                self.module_arena.n_modules() == old(self).module_arena.n_modules(),
                forall|m: int| 0 <= m < old(self).module_arena.n_modules() && m != parent.0
                    ==> #[trigger] self.module_arena.modules_view()[m] == old(self).module_arena.modules_view()[m],
                forall|k: Seq<char>| old(self).module_arena.modules_view()[parent.0 as int].items().contains_key(k)
                    ==> #[trigger] self.module_arena.modules_view()[parent.0 as int].items().contains_key(k),
                forall|j: int| 0 <= j < i && old(self).defs.ast_to_def_view().contains_key(#[trigger] v@[j].ast_id.0)
                    ==> self.module_arena.modules_view()[parent.0 as int].items().contains_key(v@[j].node.ident.node.name@),
            decreases v.len() - i,
        {
            proof {
                assert(decreases_to!(*v => v[i as int]));
            }
            self.build_enum_variant(&v[i], parent, in_impl);
            proof {
                assert(v@.take(i as int + 1).drop_last() =~= v@.take(i as int));
            }
            i = i + 1;
        }
        proof {
            assert(v@.take(v.len() as int) =~= v@);
        }
    }

    #[verifier::rlimit(30)]
    fn build_struct_field_list(&mut self, v: &Vec<AstNode<ast::StructFieldDef>>, parent: ModuleId, in_impl: &mut bool)
        requires
            old(self).inv(),
            parent.0 < old(self).module_arena.n_modules(),
        ensures
            final(self).inv(),
            final(self).module_arena.n_modules() >= old(self).module_arena.n_modules(),
            final(self).defs == old(self).defs,
            final(self).errors == old(self).errors,
            modules_built(*old(self), *final(self), mn_struct_fields(v@, old(self).defs.ast_to_def_view())),
        decreases v,
    {
        let ghost start = *self;
        let mut i: usize = 0;
        while i < v.len()
            invariant
                i <= v.len(),
                self.inv(),
                parent.0 < self.module_arena.n_modules(),
                self.module_arena.n_modules() >= old(self).module_arena.n_modules(),
                self.defs == old(self).defs,
                self.errors == old(self).errors,
                modules_built(start, *self, mn_struct_fields(v@.take(i as int), old(self).defs.ast_to_def_view())),
            decreases v.len() - i,
        {
            proof {
                assert(decreases_to!(*v => v[i as int]));
            }
            self.build_struct_field(&v[i], parent, in_impl);
            proof {
                assert(v@.take(i as int + 1).drop_last() =~= v@.take(i as int));
            }
            i = i + 1;
        }
        proof {
            assert(v@.take(v.len() as int) =~= v@);
        }
    }

    #[verifier::rlimit(30)]
    fn build_assoc_item_list(&mut self, v: &Vec<AstNode<ast::AssociatedItem>>, parent: ModuleId, in_impl: &mut bool)
        requires
            old(self).inv(),
            parent.0 < old(self).module_arena.n_modules(),
        ensures
            final(self).inv(),
            final(self).module_arena.n_modules() >= old(self).module_arena.n_modules(),
            final(self).defs == old(self).defs,
            final(self).errors == old(self).errors,
            modules_built(*old(self), *final(self), mn_assoc_items(v@, old(self).defs.ast_to_def_view())),
        decreases v,
    {
        let ghost start = *self;
        let mut i: usize = 0;
        while i < v.len()
            invariant
                i <= v.len(),
                self.inv(),
                parent.0 < self.module_arena.n_modules(),
                self.module_arena.n_modules() >= old(self).module_arena.n_modules(),
                self.defs == old(self).defs,
                self.errors == old(self).errors,
                modules_built(start, *self, mn_assoc_items(v@.take(i as int), old(self).defs.ast_to_def_view())),
            decreases v.len() - i,
        {
            proof {
                assert(decreases_to!(*v => v[i as int]));
            }
            self.build_assoc_item(&v[i], parent, in_impl);
            proof {
                assert(v@.take(i as int + 1).drop_last() =~= v@.take(i as int));
            }
            i = i + 1;
        }
        proof {
            assert(v@.take(v.len() as int) =~= v@);
        }
    }

    #[verifier::rlimit(30)]
    fn build_path_list(&mut self, v: &Vec<AstNode<ast::Path>>, parent: ModuleId, in_impl: &mut bool)
        requires
            old(self).inv(),
            parent.0 < old(self).module_arena.n_modules(),
        ensures
            final(self).inv(),
            final(self).module_arena.n_modules() >= old(self).module_arena.n_modules(),
            final(self).defs == old(self).defs,
            final(self).errors == old(self).errors,
            modules_built(*old(self), *final(self), mn_paths(v@, old(self).defs.ast_to_def_view())),
        decreases v,
    {
        let ghost start = *self;
        let mut i: usize = 0;
        while i < v.len()
            invariant
                i <= v.len(),
                self.inv(),
                parent.0 < self.module_arena.n_modules(),
                self.module_arena.n_modules() >= old(self).module_arena.n_modules(),
                self.defs == old(self).defs,
                self.errors == old(self).errors,
                modules_built(start, *self, mn_paths(v@.take(i as int), old(self).defs.ast_to_def_view())),
            decreases v.len() - i,
        {
            proof {
                assert(decreases_to!(*v => v[i as int]));
            }
            self.build_path(&v[i], parent, in_impl);
            proof {
                assert(v@.take(i as int + 1).drop_last() =~= v@.take(i as int));
            }
            i = i + 1;
        }
        proof {
            assert(v@.take(v.len() as int) =~= v@);
        }
    }

    #[verifier::rlimit(30)]
    fn build_path_segment_list(&mut self, v: &Vec<AstNode<ast::PathSegment>>, parent: ModuleId, in_impl: &mut bool)
        requires
            old(self).inv(),
            parent.0 < old(self).module_arena.n_modules(),
        ensures
            final(self).inv(),
            final(self).module_arena.n_modules() >= old(self).module_arena.n_modules(),
            final(self).defs == old(self).defs,
            final(self).errors == old(self).errors,
            modules_built(*old(self), *final(self), mn_path_segments(v@, old(self).defs.ast_to_def_view())),
        decreases v,
    {
        let ghost start = *self;
        let mut i: usize = 0;
        while i < v.len()
            invariant
                i <= v.len(),
                self.inv(),
                parent.0 < self.module_arena.n_modules(),
                self.module_arena.n_modules() >= old(self).module_arena.n_modules(),
                self.defs == old(self).defs,
                self.errors == old(self).errors,
                modules_built(start, *self, mn_path_segments(v@.take(i as int), old(self).defs.ast_to_def_view())),
            decreases v.len() - i,
        {
            proof {
                assert(decreases_to!(*v => v[i as int]));
            }
            self.build_path_segment(&v[i], parent, in_impl);
            proof {
                assert(v@.take(i as int + 1).drop_last() =~= v@.take(i as int));
            }
            i = i + 1;
        }
        proof {
            assert(v@.take(v.len() as int) =~= v@);
        }
    }

    #[verifier::rlimit(30)]
    fn build_generic_arg_list(&mut self, v: &Vec<AstNode<ast::GenericArg>>, parent: ModuleId, in_impl: &mut bool)
        requires
            old(self).inv(),
            parent.0 < old(self).module_arena.n_modules(),
        ensures
            final(self).inv(),
            final(self).module_arena.n_modules() >= old(self).module_arena.n_modules(),
            final(self).defs == old(self).defs,
            final(self).errors == old(self).errors,
            modules_built(*old(self), *final(self), mn_generic_args(v@, old(self).defs.ast_to_def_view())),
        decreases v,
    {
        let ghost start = *self;
        let mut i: usize = 0;
        while i < v.len()
            invariant
                i <= v.len(),
                self.inv(),
                parent.0 < self.module_arena.n_modules(),
                self.module_arena.n_modules() >= old(self).module_arena.n_modules(),
                self.defs == old(self).defs,
                self.errors == old(self).errors,
                modules_built(start, *self, mn_generic_args(v@.take(i as int), old(self).defs.ast_to_def_view())),
            decreases v.len() - i,
        {
            proof {
                assert(decreases_to!(*v => v[i as int]));
            }
            self.build_generic_arg(&v[i], parent, in_impl);
            proof {
                assert(v@.take(i as int + 1).drop_last() =~= v@.take(i as int));
            }
            i = i + 1;
        }
        proof {
            assert(v@.take(v.len() as int) =~= v@);
        }
    }

    #[verifier::rlimit(30)]
    fn build_struct_expr_field_list(&mut self, v: &Vec<AstNode<ast::StructExprField>>, parent: ModuleId, in_impl: &mut bool)
        requires
            old(self).inv(),
            parent.0 < old(self).module_arena.n_modules(),
        ensures
            final(self).inv(),
            final(self).module_arena.n_modules() >= old(self).module_arena.n_modules(),
            final(self).defs == old(self).defs,
            final(self).errors == old(self).errors,
            modules_built(*old(self), *final(self), mn_struct_expr_fields(v@, old(self).defs.ast_to_def_view())),
        decreases v,
    {
        let ghost start = *self;
        let mut i: usize = 0;
        while i < v.len()
            invariant
                i <= v.len(),
                self.inv(),
                parent.0 < self.module_arena.n_modules(),
                self.module_arena.n_modules() >= old(self).module_arena.n_modules(),
                self.defs == old(self).defs,
                self.errors == old(self).errors,
                modules_built(start, *self, mn_struct_expr_fields(v@.take(i as int), old(self).defs.ast_to_def_view())),
            decreases v.len() - i,
        {
            proof {
                assert(decreases_to!(*v => v[i as int]));
            }
            self.build_struct_expr_field(&v[i], parent, in_impl);
            proof {
                assert(v@.take(i as int + 1).drop_last() =~= v@.take(i as int));
            }
            i = i + 1;
        }
        proof {
            assert(v@.take(v.len() as int) =~= v@);
        }
    }

    #[verifier::rlimit(30)]
    fn build_stmt_list(&mut self, v: &Vec<AstNode<ast::Stmt>>, parent: ModuleId, in_impl: &mut bool)
        requires
            old(self).inv(),
            parent.0 < old(self).module_arena.n_modules(),
        ensures
            final(self).inv(),
            final(self).module_arena.n_modules() >= old(self).module_arena.n_modules(),
            final(self).defs == old(self).defs,
            final(self).errors == old(self).errors,
            modules_built(*old(self), *final(self), mn_stmts(v@, old(self).defs.ast_to_def_view())),
        decreases v,
    {
        let ghost start = *self;
        let mut i: usize = 0;
        while i < v.len()
            invariant
                i <= v.len(),
                self.inv(),
                parent.0 < self.module_arena.n_modules(),
                self.module_arena.n_modules() >= old(self).module_arena.n_modules(),
                self.defs == old(self).defs,
                self.errors == old(self).errors,
                modules_built(start, *self, mn_stmts(v@.take(i as int), old(self).defs.ast_to_def_view())),
            decreases v.len() - i,
        {
            proof {
                assert(decreases_to!(*v => v[i as int]));
            }
            self.build_stmt(&v[i], parent, in_impl);
            proof {
                assert(v@.take(i as int + 1).drop_last() =~= v@.take(i as int));
            }
            i = i + 1;
        }
        proof {
            assert(v@.take(v.len() as int) =~= v@);
        }
    }

    #[verifier::rlimit(30)]
    fn build_ty_list(&mut self, v: &Vec<AstNode<ast::Ty>>, parent: ModuleId, in_impl: &mut bool)
        requires
            old(self).inv(),
            parent.0 < old(self).module_arena.n_modules(),
        ensures
            final(self).inv(),
            final(self).module_arena.n_modules() >= old(self).module_arena.n_modules(),
            final(self).defs == old(self).defs,
            final(self).errors == old(self).errors,
            modules_built(*old(self), *final(self), mn_tys(v@, old(self).defs.ast_to_def_view())),
        decreases v,
    {
        let ghost start = *self;
        let mut i: usize = 0;
        while i < v.len()
            invariant
                i <= v.len(),
                self.inv(),
                parent.0 < self.module_arena.n_modules(),
                self.module_arena.n_modules() >= old(self).module_arena.n_modules(),
                self.defs == old(self).defs,
                self.errors == old(self).errors,
                modules_built(start, *self, mn_tys(v@.take(i as int), old(self).defs.ast_to_def_view())),
            decreases v.len() - i,
        {
            proof {
                assert(decreases_to!(*v => v[i as int]));
            }
            self.build_ty(&v[i], parent, in_impl);
            proof {
                assert(v@.take(i as int + 1).drop_last() =~= v@.take(i as int));
            }
            i = i + 1;
        }
        proof {
            assert(v@.take(v.len() as int) =~= v@);
        }
    }

    #[verifier::rlimit(30)]
    fn build_pattern_list(&mut self, v: &Vec<AstNode<ast::Pattern>>, parent: ModuleId, in_impl: &mut bool)
        requires
            old(self).inv(),
            parent.0 < old(self).module_arena.n_modules(),
        ensures
            final(self).inv(),
            final(self).module_arena.n_modules() >= old(self).module_arena.n_modules(),
            final(self).defs == old(self).defs,
            final(self).errors == old(self).errors,
            modules_built(*old(self), *final(self), mn_patterns(v@, old(self).defs.ast_to_def_view())),
        decreases v,
    {
        let ghost start = *self;
        let mut i: usize = 0;
        while i < v.len()
            invariant
                i <= v.len(),
                self.inv(),
                parent.0 < self.module_arena.n_modules(),
                self.module_arena.n_modules() >= old(self).module_arena.n_modules(),
                self.defs == old(self).defs,
                self.errors == old(self).errors,
                modules_built(start, *self, mn_patterns(v@.take(i as int), old(self).defs.ast_to_def_view())),
            decreases v.len() - i,
        {
            proof {
                assert(decreases_to!(*v => v[i as int]));
            }
            self.build_pattern(&v[i], parent, in_impl);
            proof {
                assert(v@.take(i as int + 1).drop_last() =~= v@.take(i as int));
            }
            i = i + 1;
        }
        proof {
            assert(v@.take(v.len() as int) =~= v@);
        }
    }

    #[verifier::rlimit(30)]
    fn build_pattern_field_list(&mut self, v: &Vec<AstNode<ast::PatternStructField>>, parent: ModuleId, in_impl: &mut bool)
        requires
            old(self).inv(),
            parent.0 < old(self).module_arena.n_modules(),
        ensures
            final(self).inv(),
            final(self).module_arena.n_modules() >= old(self).module_arena.n_modules(),
            final(self).defs == old(self).defs,
            final(self).errors == old(self).errors,
            modules_built(*old(self), *final(self), mn_pattern_fields(v@, old(self).defs.ast_to_def_view())),
        decreases v,
    {
        let ghost start = *self;
        let mut i: usize = 0;
        while i < v.len()
            invariant
                i <= v.len(),
                self.inv(),
                parent.0 < self.module_arena.n_modules(),
                self.module_arena.n_modules() >= old(self).module_arena.n_modules(),
                self.defs == old(self).defs,
                self.errors == old(self).errors,
                modules_built(start, *self, mn_pattern_fields(v@.take(i as int), old(self).defs.ast_to_def_view())),
            decreases v.len() - i,
        {
            proof {
                assert(decreases_to!(*v => v[i as int]));
            }
            self.build_pattern_field(&v[i], parent, in_impl);
            proof {
                assert(v@.take(i as int + 1).drop_last() =~= v@.take(i as int));
            }
            i = i + 1;
        }
        proof {
            assert(v@.take(v.len() as int) =~= v@);
        }
    }

    #[verifier::rlimit(30)]
    fn build_match_arm_list(&mut self, v: &Vec<AstNode<ast::MatchArm>>, parent: ModuleId, in_impl: &mut bool)
        requires
            old(self).inv(),
            parent.0 < old(self).module_arena.n_modules(),
        ensures
            final(self).inv(),
            final(self).module_arena.n_modules() >= old(self).module_arena.n_modules(),
            final(self).defs == old(self).defs,
            final(self).errors == old(self).errors,
            modules_built(*old(self), *final(self), mn_match_arms(v@, old(self).defs.ast_to_def_view())),
        decreases v,
    {
        let ghost start = *self;
        let mut i: usize = 0;
        while i < v.len()
            invariant
                i <= v.len(),
                self.inv(),
                parent.0 < self.module_arena.n_modules(),
                self.module_arena.n_modules() >= old(self).module_arena.n_modules(),
                self.defs == old(self).defs,
                self.errors == old(self).errors,
                modules_built(start, *self, mn_match_arms(v@.take(i as int), old(self).defs.ast_to_def_view())),
            decreases v.len() - i,
        {
            proof {
                assert(decreases_to!(*v => v[i as int]));
            }
            self.build_match_arm(&v[i], parent, in_impl);
            proof {
                assert(v@.take(i as int + 1).drop_last() =~= v@.take(i as int));
            }
            i = i + 1;
        }
        proof {
            assert(v@.take(v.len() as int) =~= v@);
        }
    }

    #[verifier::rlimit(30)]
    fn build_expr_list(&mut self, v: &Vec<AstNode<ast::Expr>>, parent: ModuleId, in_impl: &mut bool)
        requires
            old(self).inv(),
            parent.0 < old(self).module_arena.n_modules(),
        ensures
            final(self).inv(),
            final(self).module_arena.n_modules() >= old(self).module_arena.n_modules(),
            final(self).defs == old(self).defs,
            final(self).errors == old(self).errors,
            modules_built(*old(self), *final(self), mn_exprs(v@, old(self).defs.ast_to_def_view())),
        decreases v,
    {
        let ghost start = *self;
        let mut i: usize = 0;
        while i < v.len()
            invariant
                i <= v.len(),
                self.inv(),
                parent.0 < self.module_arena.n_modules(),
                self.module_arena.n_modules() >= old(self).module_arena.n_modules(),
                self.defs == old(self).defs,
                self.errors == old(self).errors,
                modules_built(start, *self, mn_exprs(v@.take(i as int), old(self).defs.ast_to_def_view())),
            decreases v.len() - i,
        {
            proof {
                assert(decreases_to!(*v => v[i as int]));
            }
            self.build_expr(&v[i], parent, in_impl);
            proof {
                assert(v@.take(i as int + 1).drop_last() =~= v@.take(i as int));
            }
            i = i + 1;
        }
        proof {
            assert(v@.take(v.len() as int) =~= v@);
        }
    }

    #[verifier::rlimit(30)]
    fn build_block_stmts(&mut self, id: AstId, v: &Vec<AstNode<ast::Stmt>>, parent: ModuleId, in_impl: &mut bool)
        requires
            old(self).inv(),
            parent.0 < old(self).module_arena.n_modules(),
        ensures
            final(self).inv(),
            final(self).module_arena.n_modules() >= old(self).module_arena.n_modules(),
            final(self).defs == old(self).defs,
            final(self).errors == old(self).errors,
            modules_built(*old(self), *final(self), set![id.0].union(mn_stmts(v@, old(self).defs.ast_to_def_view()))),
        decreases v,
    {
        let ghost start = *self;
        let module = self.module_arena.add_module(parent, ModuleKind::Block);
        self.insert_module(id, module);
        let mut i: usize = 0;
        while i < v.len()
            invariant
                i <= v.len(),
                self.inv(),
                parent.0 < self.module_arena.n_modules(),
                self.module_arena.n_modules() >= old(self).module_arena.n_modules(),
                self.defs == old(self).defs,
                self.errors == old(self).errors,
                modules_built(start, *self, set![id.0].union(mn_stmts(v@.take(i as int), old(self).defs.ast_to_def_view()))),
            decreases v.len() - i,
        {
            proof {
                assert(decreases_to!(*v => v[i as int]));
            }
            self.build_stmt(&v[i], parent, in_impl);
            proof {
                assert(v@.take(i as int + 1).drop_last() =~= v@.take(i as int));
                assert(set![id.0].union(mn_stmts(v@.take(i as int + 1), old(self).defs.ast_to_def_view())) =~= set![id.0].union(
                    mn_stmts(v@.take(i as int), old(self).defs.ast_to_def_view())).union(mn_stmt(v@[i as int], old(self).defs.ast_to_def_view())));
            }
            i = i + 1;
        }
        proof {
            assert(v@.take(v.len() as int) =~= v@);
        }
        
    }
}

} // verus!
