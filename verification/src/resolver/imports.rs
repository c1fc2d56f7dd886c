use crate::parser::ast::{AstNode, Ident};
use crate::resolver::error::ResolverError;
use crate::resolver::module_builder::{binding_in, import_in, ModuleArena};
use crate::resolver::modules::{Binding, ImportId, ModuleId};
use crate::span::Span;
use crate::strings::{join_path, push_string, string_is};
use vstd::prelude::*;

verus! {

#[derive(Clone, Copy, Debug, PartialEq, Eq, Structural)]
pub enum ImportResult {
    Resolved,
    Unresolved,
    Indeterminate,
}

/// The names of a path's segments.
pub open spec fn segment_names(path: Seq<AstNode<Ident>>) -> Seq<Seq<char>> {
    path.map_values(|n: AstNode<Ident>| n.node.name@)
}

pub open spec fn kw_super() -> Seq<char> {
    seq!['s', 'u', 'p', 'e', 'r']
}

pub open spec fn kw_crate() -> Seq<char> {
    seq!['c', 'r', 'a', 't', 'e']
}

pub open spec fn kw_self() -> Seq<char> {
    seq!['s', 'e', 'l', 'f']
}

/// The parent of a module; the root is its own parent.
pub open spec fn parent_or_self(arena: &ModuleArena, m: ModuleId) -> ModuleId {
    match arena.modules_view()[m.0 as int].spec_parent() {
        Some(p) => p,
        None => m,
    }
}

/// Climbs one module up for each `super` from segment `i` on; gives the
/// module reached and the first segment that is no `super`.
pub open spec fn climb_supers(arena: &ModuleArena, segs: Seq<Seq<char>>, i: nat, current: ModuleId) -> (
    ModuleId,
    nat,
)
    decreases segs.len() - i,
{
    if i < segs.len() && segs[i as int] == kw_super() {
        climb_supers(arena, segs, i + 1, parent_or_self(arena, current))
    } else {
        (current, i)
    }
}

/// Where a `use` path made in `parent` starts, and how many leading
/// segments (`crate`, `self`, the `super`s) that takes.
pub open spec fn spec_first_segment(arena: &ModuleArena, segs: Seq<Seq<char>>, parent: ModuleId) -> (
    ModuleId,
    nat,
) {
    if segs.len() == 0 {
        (parent, 0)
    } else if segs[0] == kw_crate() {
        (arena.spec_root_id(), 1)
    } else if segs[0] == kw_super() {
        climb_supers(arena, segs, 1, parent_or_self(arena, parent))
    } else if segs[0] == kw_self() {
        (parent, 1)
    } else {
        (parent, 0)
    }
}

/// Follows the segments from `i` on, starting in module `current`.
pub open spec fn import_walk(arena: &ModuleArena, segs: Seq<Seq<char>>, i: nat, current: ModuleId) -> (
    ImportResult,
    Option<Binding>,
)
    decreases segs.len() - i,
{
    if i >= segs.len() {
        (ImportResult::Resolved, Some(Binding::Module(current)))
    } else {
        let items = arena.modules_view()[current.0 as int].items();
        if !items.contains_key(segs[i as int]) {
            (ImportResult::Unresolved, None)
        } else {
            match items[segs[i as int]] {
                Binding::Module(m) => import_walk(arena, segs, i + 1, m),
                Binding::Item(d) => (ImportResult::Resolved, Some(Binding::Item(d))),
                Binding::Import(other) => match arena.imports_view()[other.0 as int].resolved_binding {
                    Some(Binding::Module(m)) => import_walk(arena, segs, i + 1, m),
                    Some(Binding::Item(d)) => (ImportResult::Resolved, Some(Binding::Item(d))),
                    _ => (ImportResult::Indeterminate, None),
                },
            }
        }
    }
}

/// What resolving the import `id` against the arena gives.
pub open spec fn spec_resolve_import(arena: &ModuleArena, id: ImportId) -> (ImportResult, Option<Binding>) {
    let imp = arena.imports_view()[id.0 as int];
    let segs = segment_names(imp.path@);
    let (start, k) = spec_first_segment(arena, segs, imp.parent_module);
    import_walk(arena, segs, k, start)
}

fn resolve_first_segment(arena: &ModuleArena, segments: &Vec<AstNode<Ident>>, parent_module: ModuleId) -> (r: (
    ModuleId,
    usize,
))
    requires
        arena.wf(),
        parent_module.0 < arena.n_modules(),
    ensures
        (r.0, r.1 as nat) == spec_first_segment(arena, segment_names(segments@), parent_module),
        r.0.0 < arena.n_modules(),
        r.1 <= segments.len(),
{
    let ghost segs = segment_names(segments@);
    if segments.len() == 0 {
        return (parent_module, 0);
    }
    let first = &segments[0].node;
    if string_is(&first.name, &['c', 'r', 'a', 't', 'e']) {
        (arena.root_id(), 1)
    } else if string_is(&first.name, &['s', 'u', 'p', 'e', 'r']) {
        let module = arena.get(parent_module);
        let parent = match module.parent() {
            Some(p) => p,
            None => parent_module,
        };
        let mut current = parent;
        let mut skip: usize = 1;
        while skip < segments.len() && string_is(&segments[skip].node.name, &['s', 'u', 'p', 'e', 'r'])
            invariant
                arena.wf(),
                1 <= skip <= segments.len(),
                segs == segment_names(segments@),
                current.0 < arena.n_modules(),
                climb_supers(arena, segs, skip as nat, current) == climb_supers(
                    arena,
                    segs,
                    1,
                    parent_or_self(arena, parent_module),
                ),
            decreases segments.len() - skip,
        {
            let module = arena.get(current);
            current = match module.parent() {
                Some(p) => p,
                None => current,
            };
            skip = skip + 1;
        }
        (current, skip)
    } else if string_is(&first.name, &['s', 'e', 'l', 'f']) {
        (parent_module, 1)
    } else {
        (parent_module, 0)
    }
}

/// Follows the import's path through the modules; the arena is not changed.
fn walk_import(arena: &ModuleArena, import_id: ImportId) -> (r: (ImportResult, Option<Binding>))
    requires
        arena.wf(),
        import_id.0 < arena.n_imports(),
    ensures
        r == spec_resolve_import(arena, import_id),
        r.1 is Some <==> r.0 == ImportResult::Resolved,
        r.1 matches Some(b) ==> binding_in(b, arena.n_modules(), arena.n_imports()),
{
    let import = arena.get_import(import_id);
    let ghost segs = segment_names(import.path@);
    let (start, k) = resolve_first_segment(arena, &import.path, import.parent_module);
    let mut current = start;
    let mut i = k;
    while i < import.path.len()
        invariant
            arena.wf(),
            k <= i <= import.path.len(),
            segs == segment_names(import.path@),
            *import == arena.imports_view()[import_id.0 as int],
            import_id.0 < arena.n_imports(),
            current.0 < arena.n_modules(),
            import_walk(arena, segs, i as nat, current) == spec_resolve_import(arena, import_id),
        decreases import.path.len() - i,
    {
        let ident = &import.path[i].node;
        assert(segs[i as int] == ident.name@);
        let module = arena.get(current);
        match module.get(ident) {
            None => {
                return (ImportResult::Unresolved, None);
            },
            Some(binding) => {
                assert(binding_in(*binding, arena.n_modules(), arena.n_imports()));
                match *binding {
                    Binding::Module(module_id) => {
                        current = module_id;
                    },
                    Binding::Item(def_id) => {
                        return (ImportResult::Resolved, Some(Binding::Item(def_id)));
                    },
                    Binding::Import(other_id) => {
                        let other = arena.get_import(other_id);
                        match other.resolved_binding {
                            Some(Binding::Module(module_id)) => {
                                current = module_id;
                            },
                            Some(Binding::Item(def_id)) => {
                                return (ImportResult::Resolved, Some(Binding::Item(def_id)));
                            },
                            _ => {
                                return (ImportResult::Indeterminate, None);
                            },
                        }
                    },
                }
            },
        }
        i = i + 1;
    }
    (ImportResult::Resolved, Some(Binding::Module(current)))
}

/// The import resolved, and the last name of its path is bound in the
/// module it was made in.
pub open spec fn import_settled(arena: ModuleArena, x: ImportId) -> bool {
    let imp = arena.imports_view()[x.0 as int];
    &&& imp.resolved_binding is Some
    &&& arena.modules_view()[imp.parent_module.0 as int].items().contains_key(imp.path@.last().node.name@)
}

/// Resolves the import `import_id`, recording what it resolved to; the
/// arena is left as it was unless the import resolves.
fn resolve_import(arena: &mut ModuleArena, import_id: ImportId) -> (r: ImportResult)
    requires
        old(arena).wf(),
        import_id.0 < old(arena).n_imports(),
    ensures
        final(arena).wf(),
        r == spec_resolve_import(old(arena), import_id).0,
        spec_resolve_import(old(arena), import_id).1 is Some <==> r == ImportResult::Resolved,
        r != ImportResult::Resolved ==> *final(arena) == *old(arena),
        r == ImportResult::Resolved ==> {
            &&& final(arena).modules_view() == old(arena).modules_view()
            &&& final(arena).n_imports() == old(arena).n_imports()
            &&& forall|j: int|
                0 <= j < old(arena).n_imports() && j != import_id.0 ==> #[trigger] final(arena).imports_view()[j]
                    == old(arena).imports_view()[j]
            &&& final(arena).imports_view()[import_id.0 as int].path@ == old(arena).imports_view()[import_id.0 as int].path@
            &&& final(arena).imports_view()[import_id.0 as int].parent_module == old(arena).imports_view()[import_id.0 as int].parent_module
            &&& final(arena).imports_view()[import_id.0 as int].resolved_binding == spec_resolve_import(
                old(arena),
                import_id,
            ).1
        },
{
    let (result, binding) = walk_import(arena, import_id);
    match binding {
        Some(b) => arena.set_import_binding(import_id, b),
        None => {},
    }
    result
}

/// Binds the last segment's name, in the module the import was made in, to
/// what the import resolved to.
fn finalize_import(arena: &mut ModuleArena, import_id: ImportId)
    requires
        old(arena).wf(),
        import_id.0 < old(arena).n_imports(),
        old(arena).imports_view()[import_id.0 as int].path.len() > 0,
        old(arena).imports_view()[import_id.0 as int].resolved_binding is Some,
    ensures
        final(arena).wf(),
        final(arena).n_modules() == old(arena).n_modules(),
        final(arena).imports_view() == old(arena).imports_view(),
        ({
            let imp = old(arena).imports_view()[import_id.0 as int];
            let m = imp.parent_module.0 as int;
            &&& final(arena).modules_view()[m].items() == old(arena).modules_view()[m].items().insert(
                imp.path@.last().node.name@,
                imp.resolved_binding->0,
            )
            &&& forall|i: int|
                0 <= i < old(arena).n_modules() && i != m ==> #[trigger] final(arena).modules_view()[i]
                    == old(arena).modules_view()[i]
        }),
{
    let import = arena.get_import(import_id);
    let parent_module = import.parent_module;
    let last = &import.path[import.path.len() - 1].node;
    let name = Ident { name: last.name.clone() };
    let binding = match import.resolved_binding {
        Some(b) => b,
        None => Binding::Item(crate::resolver::defs::DefId(0)),
    };
    arena.define(parent_module, name, binding);
}

/// The error for an import that does not resolve: its whole path, from the
/// first segment to the last.
pub open spec fn is_unresolved_import_error(e: ResolverError, path: Seq<AstNode<Ident>>) -> bool {
    e matches ResolverError::UnresolvedPath { span, path: text } && span == path[0].span.joined(
        path.last().span,
    ) && text@ == join_path(segment_names(path))
}

fn report_unresolved_import(arena: &ModuleArena, import_id: ImportId) -> (e: ResolverError)
    requires
        import_id.0 < arena.n_imports(),
        arena.imports_view()[import_id.0 as int].path.len() > 0,
    ensures
        is_unresolved_import_error(e, arena.imports_view()[import_id.0 as int].path@),
{
    let import = arena.get_import(import_id);
    let ghost names = segment_names(import.path@);
    let mut text = String::new();
    let mut i: usize = 0;
    while i < import.path.len()
        invariant
            0 < import.path.len(),
            i <= import.path.len(),
            names == segment_names(import.path@),
            text@ == join_path(names.take(i as int)),
        decreases import.path.len() - i,
    {
        if i > 0 {
            text.push(':');
            text.push(':');
        }
        push_string(&mut text, &import.path[i].node.name);
        i = i + 1;
        assert(names.take(i as int).drop_last() =~= names.take(i - 1));
        assert(names.take(i as int).last() == import.path@[i - 1].node.name@);
        assert(i == 1 ==> names.take(i as int) =~= seq![names[0]]);
    }
    assert(names.take(import.path.len() as int) =~= names);
    let span = import.path[0].span.to(import.path[import.path.len() - 1].span);
    ResolverError::UnresolvedPath { span, path: text }
}

/// Resolves imports round by round until a round resolves none, binding
/// each resolved import's name in its module. Gives the imports left
/// unresolved, and an error for each of them.
pub fn resolve_imports(arena: &mut ModuleArena, unresolved_imports: Vec<ImportId>) -> (r: (
    Vec<ImportId>,
    Vec<ResolverError>,
))
    requires
        old(arena).wf(),
        forall|k: int|
            0 <= k < unresolved_imports.len() ==> (#[trigger] unresolved_imports@[k]).0 < old(arena).n_imports()
                && old(arena).imports_view()[unresolved_imports@[k].0 as int].path.len() > 0,
    ensures
        final(arena).wf(),
        final(arena).n_modules() == old(arena).n_modules(),
        final(arena).n_imports() == old(arena).n_imports(),
        forall|k: int| 0 <= k < r.0.len() ==> unresolved_imports@.contains(#[trigger] r.0@[k]),
        forall|k: int|
            0 <= k < r.0.len() ==> spec_resolve_import(final(arena), #[trigger] r.0@[k]).0
                != ImportResult::Resolved,
        forall|k: int|
            0 <= k < unresolved_imports.len() ==> r.0@.contains(#[trigger] unresolved_imports@[k])
                || import_settled(*final(arena), unresolved_imports@[k]),
        r.1.len() == r.0.len(),
        forall|k: int|
            0 <= k < r.1.len() ==> is_unresolved_import_error(
                #[trigger] r.1@[k],
                final(arena).imports_view()[r.0@[k].0 as int].path@,
            ),
{
    let mut unresolved = unresolved_imports;
    loop
        invariant
            arena.wf(),
            arena.n_modules() == old(arena).n_modules(),
            arena.n_imports() == old(arena).n_imports(),
            forall|j: int|
                0 <= j < arena.n_imports() ==> (#[trigger] arena.imports_view()[j]).path@
                    == old(arena).imports_view()[j].path@,
            forall|k: int| 0 <= k < unresolved.len() ==> unresolved_imports@.contains(#[trigger] unresolved@[k]),
            forall|k: int| 0 <= k < unresolved_imports.len() ==> (#[trigger] unresolved_imports@[k]).0 < arena.n_imports(),
            forall|k: int|
                0 <= k < unresolved.len() ==> (#[trigger] unresolved@[k]).0 < arena.n_imports()
                    && arena.imports_view()[unresolved@[k].0 as int].path.len() > 0,
            forall|k: int|
                0 <= k < unresolved_imports.len() ==> unresolved@.contains(#[trigger] unresolved_imports@[k])
                    || import_settled(*arena, unresolved_imports@[k]),
        ensures
            arena.wf(),
            arena.n_modules() == old(arena).n_modules(),
            arena.n_imports() == old(arena).n_imports(),
            forall|j: int|
                0 <= j < arena.n_imports() ==> (#[trigger] arena.imports_view()[j]).path@
                    == old(arena).imports_view()[j].path@,
            forall|k: int| 0 <= k < unresolved.len() ==> unresolved_imports@.contains(#[trigger] unresolved@[k]),
            forall|k: int| 0 <= k < unresolved_imports.len() ==> (#[trigger] unresolved_imports@[k]).0 < arena.n_imports(),
            forall|k: int|
                0 <= k < unresolved.len() ==> (#[trigger] unresolved@[k]).0 < arena.n_imports()
                    && arena.imports_view()[unresolved@[k].0 as int].path.len() > 0,
            forall|k: int|
                0 <= k < unresolved_imports.len() ==> unresolved@.contains(#[trigger] unresolved_imports@[k])
                    || import_settled(*arena, unresolved_imports@[k]),
            forall|k: int|
                0 <= k < unresolved.len() ==> spec_resolve_import(arena, #[trigger] unresolved@[k]).0
                    != ImportResult::Resolved,
        decreases unresolved.len(),
    {
        let ghost round_start = *arena;
        assert(unresolved@.subrange(0, unresolved.len() as int) =~= unresolved@);
        let mut made_progress = false;
        let mut still_unresolved: Vec<ImportId> = Vec::new();
        let mut i: usize = 0;
        while i < unresolved.len()
            invariant
                arena.wf(),
                arena.n_modules() == old(arena).n_modules(),
                arena.n_imports() == old(arena).n_imports(),
                i <= unresolved.len(),
                forall|j: int|
                    0 <= j < arena.n_imports() ==> (#[trigger] arena.imports_view()[j]).path@
                        == old(arena).imports_view()[j].path@,
                forall|k: int| 0 <= k < unresolved.len() ==> unresolved_imports@.contains(#[trigger] unresolved@[k]),
            forall|k: int| 0 <= k < unresolved_imports.len() ==> (#[trigger] unresolved_imports@[k]).0 < arena.n_imports(),
                forall|k: int| 0 <= k < unresolved_imports.len() ==> (#[trigger] unresolved_imports@[k]).0 < arena.n_imports(),
                forall|k: int|
                    0 <= k < unresolved.len() ==> (#[trigger] unresolved@[k]).0 < arena.n_imports()
                        && arena.imports_view()[unresolved@[k].0 as int].path.len() > 0,
                forall|k: int| 0 <= k < still_unresolved.len() ==> unresolved_imports@.contains(#[trigger] still_unresolved@[k]),
                forall|k: int|
                    0 <= k < still_unresolved.len() ==> (#[trigger] still_unresolved@[k]).0 < arena.n_imports()
                        && arena.imports_view()[still_unresolved@[k].0 as int].path.len() > 0,
                forall|k: int|
                    0 <= k < unresolved_imports.len() ==> (unresolved@.subrange(i as int, unresolved.len() as int).contains(#[trigger] unresolved_imports@[k])
                    || still_unresolved@.contains(unresolved_imports@[k]))
                        || import_settled(*arena, unresolved_imports@[k]),
                !made_progress ==> still_unresolved.len() == i,
                made_progress ==> still_unresolved.len() < i,
                !made_progress ==> *arena == round_start,
                !made_progress ==> forall|k: int|
                    0 <= k < still_unresolved.len() ==> spec_resolve_import(arena, #[trigger] still_unresolved@[k]).0
                        != ImportResult::Resolved,
            decreases unresolved.len() - i,
        {
            let import_id = unresolved[i];
            let ghost before = *arena;
            let ghost still_before = still_unresolved@;
            let result = resolve_import(arena, import_id);
            match result {
                ImportResult::Resolved => {
                    made_progress = true;
                    finalize_import(arena, import_id);
                },
                _ => {
                    still_unresolved.push(import_id);
                },
            }
            proof {
                assert forall|j: int|
                    0 <= j < arena.n_imports() && (#[trigger] before.imports_view()[j]).resolved_binding is Some
                    implies arena.imports_view()[j].resolved_binding is Some by {
                    if result == ImportResult::Resolved && j != import_id.0 {
                        assert(arena.imports_view()[j] == before.imports_view()[j]);
                    }
                }
                assert forall|x: ImportId|
                    x.0 < arena.n_imports() && #[trigger] import_settled(before, x) implies import_settled(*arena, x) by {
                    if result == ImportResult::Resolved && x != import_id {
                        assert(arena.imports_view()[x.0 as int] == before.imports_view()[x.0 as int]);
                        let m = before.imports_view()[x.0 as int].parent_module.0 as int;
                        assert(import_in(before.imports_view()[x.0 as int], before.n_modules(), before.n_imports()));
                        assert(before.modules_view()[m].items().contains_key(
                            before.imports_view()[x.0 as int].path@.last().node.name@,
                        ));
                    }
                }
                assert forall|k: int|
                    0 <= k < unresolved_imports.len() implies (unresolved@.subrange(i + 1, unresolved.len() as int).contains(#[trigger] unresolved_imports@[k])
                    || still_unresolved@.contains(unresolved_imports@[k]))
                        || import_settled(*arena, unresolved_imports@[k]) by {
                    let x = unresolved_imports@[k];
                    assert(unresolved_imports@.contains(x));
                    if import_settled(before, x) {
                    } else if unresolved@.subrange(i as int, unresolved.len() as int).contains(x) {
                        let w = choose|w: int| 0 <= w < unresolved.len() - i && unresolved@.subrange(i as int, unresolved.len() as int)[w] == x;
                        if w > 0 {
                            assert(unresolved@.subrange(i + 1, unresolved.len() as int)[w - 1] == x);
                        } else if result != ImportResult::Resolved {
                            assert(still_unresolved@[still_unresolved.len() - 1] == x);
                        }
                    } else {
                        assert(still_before.contains(x));
                        let w = choose|w: int| 0 <= w < still_before.len() && still_before[w] == x;
                        assert(still_unresolved@[w] == x);
                    }
                }
            }
            i = i + 1;
        }
        unresolved = still_unresolved;
        if !made_progress {
            break;
        }
    }
    let mut errors: Vec<ResolverError> = Vec::new();
    let mut k: usize = 0;
    while k < unresolved.len()
        invariant
            k <= unresolved.len(),
            errors.len() == k,
            forall|j: int|
                0 <= j < unresolved.len() ==> (#[trigger] unresolved@[j]).0 < arena.n_imports()
                    && arena.imports_view()[unresolved@[j].0 as int].path.len() > 0,
            forall|j: int|
                0 <= j < k ==> is_unresolved_import_error(
                    #[trigger] errors@[j],
                    arena.imports_view()[unresolved@[j].0 as int].path@,
                ),
        decreases unresolved.len() - k,
    {
        let e = report_unresolved_import(arena, unresolved[k]);
        errors.push(e);
        k = k + 1;
    }
    (unresolved, errors)
}

} // verus!
