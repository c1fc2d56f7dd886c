use crate::parser::ast::{AstId, AstNode, Crate, Ident};
use crate::resolver::collect_defs::{dn_items, DefCollector};
use crate::resolver::late::{paths_settled, pe_items, sp_items};
use crate::span::Span;
use crate::resolver::imports::{import_settled, is_unresolved_import_error, resolve_imports, spec_resolve_import, ImportResult};
use crate::resolver::defs::DefinitionMap;
use crate::resolver::error::ResolverError;
use crate::resolver::module_builder::ModuleArena;
use crate::resolver::modules::{ImportId, ModuleId};
use std::collections::HashMap;
use vstd::prelude::*;

verus! {

/// Some error in `errors` reports the import path `path` as unresolved.
pub open spec fn import_reported(errors: Seq<ResolverError>, path: Seq<AstNode<Ident>>) -> bool {
    exists|i: int| 0 <= i < errors.len() && is_unresolved_import_error(#[trigger] errors[i], path)
}

broadcast use vstd::std_specs::hash::group_hash_axioms;

/// The state of name resolution: the definitions, the module tree, the
/// module of each module-like item and block (keyed by the number inside
/// its node's id), the imports not yet resolved, and the errors found.
pub struct Resolver {
    pub defs: DefinitionMap,
    pub module_arena: ModuleArena,
    pub modules: HashMap<usize, ModuleId>,
    pub unresolved_imports: Vec<ImportId>,
    pub errors: Vec<ResolverError>,
}

impl Resolver {
    /// The parts agree: every module and import named exists, and every
    /// import waiting to be resolved has a path.
    pub open spec fn inv(&self) -> bool {
        &&& self.defs.wf()
        &&& self.module_arena.wf()
        &&& forall|k: usize|
            #[trigger] self.modules@.contains_key(k) ==> self.modules@[k].0 < self.module_arena.n_modules()
        &&& forall|i: int|
            0 <= i < self.unresolved_imports.len() ==> (#[trigger] self.unresolved_imports@[i]).0
                < self.module_arena.n_imports() && self.module_arena.imports_view()[self.unresolved_imports@[i].0 as int].path.len()
                > 0
    }

    pub fn new() -> (r: Resolver)
        ensures
            r.inv(),
            r.errors@.len() == 0,
            r.unresolved_imports@.len() == 0,
            r.module_arena.n_modules() == 1,
            r.module_arena.n_imports() == 0,
    {
        Resolver {
            defs: DefinitionMap::default(),
            module_arena: ModuleArena::new(),
            modules: HashMap::new(),
            unresolved_imports: Vec::new(),
            errors: Vec::new(),
        }
    }

    /// Resolves the names of a crate: collects its definitions, builds its
    /// module tree, resolves its imports, then every name in it. The errors
    /// found are added to `errors`.
    pub fn resolve(&mut self, krate: &Crate) -> (defs: &DefinitionMap)
        requires
            old(self).inv(),
        ensures
            final(self).inv(),
            *defs == final(self).defs,
            old(self).errors@.is_prefix_of(final(self).errors@),
            final(self).defs.next_id() < usize::MAX ==> forall|k: usize|
                #[trigger] dn_items(krate.items@).contains(k) ==> final(self).defs.ast_to_def_view().contains_key(k),
            forall|k: usize|
                #[trigger] final(self).defs.ast_to_def_view().contains_key(k) ==> final(self).defs.definitions_view().contains_key(
                    final(self).defs.ast_to_def_view()[k].0,
                ),
            forall|sp: Span|
                #[trigger] sp_items(krate.items@).contains(sp) ==> final(self).errors@.contains(
                    ResolverError::SelfOutsideImpl { span: sp },
                ),
            paths_settled(*final(self), pe_items(krate.items@)),
            forall|k: int|
                0 <= k < final(self).unresolved_imports@.len() ==> spec_resolve_import(
                    &final(self).module_arena,
                    #[trigger] final(self).unresolved_imports@[k],
                ).0 != ImportResult::Resolved,
            forall|k: int|
                0 <= k < final(self).unresolved_imports@.len() ==> import_reported(
                    final(self).errors@,
                    final(self).module_arena.imports_view()[(#[trigger] final(self).unresolved_imports@[k]).0 as int].path@,
                ),
    {
        self.collect_definitions(krate);
        self.build_modules(krate);
        let ghost pre = self.errors@.len();
        self.resolve_imports();
        let ghost after_imports = self.errors@;
        let ghost arena_after = self.module_arena;
        let ghost left = self.unresolved_imports@;
        let mut waiting: Vec<ImportId> = Vec::new();
        core::mem::swap(&mut waiting, &mut self.unresolved_imports);
        self.resolve_crate(krate);
        self.unresolved_imports = waiting;
        proof {
            assert(self.unresolved_imports@ == left);
            assert(self.module_arena == arena_after);
            assert forall|k: int|
                0 <= k < self.unresolved_imports@.len() implies import_reported(
                    self.errors@,
                    self.module_arena.imports_view()[(#[trigger] self.unresolved_imports@[k]).0 as int].path@,
                ) by {
                let j = pre + k;
                assert(is_unresolved_import_error(
                    after_imports[j],
                    arena_after.imports_view()[left[k].0 as int].path@,
                ));
                assert(after_imports.is_prefix_of(self.errors@));
                assert(self.errors@[j] == after_imports[j]);
            }
        }
        &self.defs
    }

    fn collect_definitions(&mut self, krate: &Crate)
        requires
            old(self).inv(),
        ensures
            final(self).inv(),
            final(self).module_arena == old(self).module_arena,
            final(self).errors == old(self).errors,
            final(self).defs.next_id() < usize::MAX ==> forall|k: usize|
                #[trigger] dn_items(krate.items@).contains(k) ==> final(self).defs.ast_to_def_view().contains_key(k),
    {
        let mut defs = DefinitionMap::default();
        core::mem::swap(&mut defs, &mut self.defs);
        let mut collector = DefCollector::new(defs);
        collector.collect_crate(krate);
        self.defs = collector.defs;
    }

    /// Resolves the imports waiting to be resolved; those that stay
    /// unresolved are reported.
    fn resolve_imports(&mut self)
        requires
            old(self).inv(),
        ensures
            final(self).inv(),
            final(self).defs == old(self).defs,
            final(self).modules == old(self).modules,
            final(self).module_arena.n_modules() == old(self).module_arena.n_modules(),
            final(self).module_arena.n_imports() == old(self).module_arena.n_imports(),
            forall|k: int|
                0 <= k < final(self).unresolved_imports@.len() ==> old(self).unresolved_imports@.contains(
                    #[trigger] final(self).unresolved_imports@[k],
                ),
            forall|k: int|
                0 <= k < final(self).unresolved_imports@.len() ==> spec_resolve_import(
                    &final(self).module_arena,
                    #[trigger] final(self).unresolved_imports@[k],
                ).0 != ImportResult::Resolved,
            forall|k: int|
                0 <= k < old(self).unresolved_imports@.len() ==> final(self).unresolved_imports@.contains(
                    #[trigger] old(self).unresolved_imports@[k],
                ) || import_settled(final(self).module_arena, old(self).unresolved_imports@[k]),
            final(self).errors@.len() == old(self).errors@.len() + final(self).unresolved_imports@.len(),
            final(self).errors@.subrange(0, old(self).errors@.len() as int) == old(self).errors@,
            forall|k: int|
                0 <= k < final(self).unresolved_imports@.len() ==> is_unresolved_import_error(
                    #[trigger] final(self).errors@[old(self).errors@.len() + k],
                    final(self).module_arena.imports_view()[final(self).unresolved_imports@[k].0 as int].path@,
                ),
            old(self).errors@.is_prefix_of(final(self).errors@),
    {
        let mut unresolved: Vec<ImportId> = Vec::new();
        core::mem::swap(&mut unresolved, &mut self.unresolved_imports);
        let (left, mut errors) = resolve_imports(&mut self.module_arena, unresolved);
        self.unresolved_imports = left;
        let ghost errs = errors@;
        self.errors.append(&mut errors);
        proof {
            assert(self.errors@.subrange(0, old(self).errors@.len() as int) =~= old(self).errors@);
            assert forall|k: int| 0 <= k < self.unresolved_imports@.len() implies is_unresolved_import_error(
                #[trigger] self.errors@[old(self).errors@.len() + k],
                self.module_arena.imports_view()[self.unresolved_imports@[k].0 as int].path@,
            ) by {
                assert(self.errors@[old(self).errors@.len() + k] == errs[k]);
            }
        }
    }

    /// Records that the node `id` opens the module `module`.
    pub fn insert_module(&mut self, id: AstId, module: ModuleId)
        requires
            old(self).inv(),
            module.0 < old(self).module_arena.n_modules(),
        ensures
            final(self).inv(),
            final(self).modules@ == old(self).modules@.insert(id.0, module),
            final(self).defs == old(self).defs,
            final(self).module_arena == old(self).module_arena,
            final(self).unresolved_imports == old(self).unresolved_imports,
            final(self).errors == old(self).errors,
    {
        self.modules.insert(id.0, module);
    }
}

} // verus!
