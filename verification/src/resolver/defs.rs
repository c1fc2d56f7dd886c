use crate::parser::ast::AstId;
use crate::resolver::ribs::Res;
use std::collections::HashMap;
use vstd::prelude::*;

verus! {

broadcast use vstd::std_specs::hash::group_hash_axioms;

/// Identifies a definition.
#[derive(Clone, Copy, Debug, PartialEq, Eq, Hash, Structural)]
pub struct DefId(pub usize);

/// What kind of thing a definition defines.
#[derive(Clone, Copy, Debug, PartialEq, Eq, Structural)]
pub enum DefKind {
    Struct,
    StructField,
    Enum,
    EnumVariant,
    Trait,
    Mod,
    Impl,
    Function,
    AssocFn,
    ExternFn,
    Use,
    Const,
    TypeParam,
    TypeAlias,
    AssocTypeAlias,
}

#[derive(Clone, Copy, Debug, PartialEq, Eq, Structural)]
pub struct Definition {
    pub def_id: DefId,
    pub kind: DefKind,
}

impl Definition {
    pub fn new(def_id: DefId, kind: DefKind) -> (d: Definition)
        ensures
            d.def_id == def_id,
            d.kind == kind,
    {
        Definition { def_id, kind }
    }
}

/// A path resolved up to some of its last segments.
#[derive(Clone, Copy, Debug, PartialEq, Eq, Structural)]
pub struct PartialRes {
    base_res: Res<AstId>,
    unresolved_segments: usize,
}

impl PartialRes {
    pub closed spec fn spec_base_res(&self) -> Res<AstId> {
        self.base_res
    }

    pub closed spec fn spec_unresolved_segments(&self) -> usize {
        self.unresolved_segments
    }

    pub fn new(base_res: Res<AstId>, unresolved_segments: usize) -> (p: PartialRes)
        ensures
            p.spec_base_res() == base_res,
            p.spec_unresolved_segments() == unresolved_segments,
    {
        PartialRes { base_res, unresolved_segments }
    }

    pub fn base_res(&self) -> (r: Res<AstId>)
        ensures
            r == self.spec_base_res(),
    {
        self.base_res
    }

    pub fn unresolved_segments(&self) -> (r: usize)
        ensures
            r == self.spec_unresolved_segments(),
    {
        self.unresolved_segments
    }
}

/// The definitions of a crate and what names resolve to. Maps are keyed by
/// the number inside a `DefId` or an `AstId`.
pub struct DefinitionMap {
    pub definitions: HashMap<usize, Definition>,
    pub resolutions: HashMap<usize, Res<AstId>>,
    pub ast_to_def: HashMap<usize, DefId>,
    pub partial_res: HashMap<usize, PartialRes>,
    next_def_id: DefId,
}

impl DefinitionMap {
    /// The id the next definition gets.
    pub closed spec fn next_id(&self) -> usize {
        self.next_def_id.0
    }

    /// The definitions, by the number inside their id.
    pub closed spec fn definitions_view(&self) -> Map<usize, Definition> {
        self.definitions@
    }

    /// What each node resolves to, by the number inside its id.
    pub closed spec fn resolutions_view(&self) -> Map<usize, Res<AstId>> {
        self.resolutions@
    }

    /// The definition each node defines, by the number inside its id.
    pub closed spec fn ast_to_def_view(&self) -> Map<usize, DefId> {
        self.ast_to_def@
    }

    /// The partial resolution of each path node, by the number inside its id.
    pub closed spec fn partial_res_view(&self) -> Map<usize, PartialRes> {
        self.partial_res@
    }

    /// Every definition is stored under its own id, and that id was handed
    /// out; every node that defines something names a definition.
    pub open spec fn wf(&self) -> bool {
        &&& forall|k: usize|
            #[trigger] self.definitions_view().contains_key(k) ==> self.definitions_view()[k].def_id
                == DefId(k) && k < self.next_id()
        &&& forall|a: usize|
            #[trigger] self.ast_to_def_view().contains_key(a) ==> self.definitions_view().contains_key(
                self.ast_to_def_view()[a].0,
            )
    }

    /// Gives up the map from defining nodes to definitions and the map of
    /// resolutions.
    pub fn into_node_maps(self) -> (r: (HashMap<usize, DefId>, HashMap<usize, Res<AstId>>))
        ensures
            r.0@ == self.ast_to_def_view(),
            r.1@ == self.resolutions_view(),
    {
        (self.ast_to_def, self.resolutions)
    }

    /// The kind of each definition, by the number inside its id.
    pub fn def_kinds(&self) -> (r: HashMap<usize, DefKind>)
        requires
            self.wf(),
        ensures
            r@ == self.definitions_view().map_values(|d: Definition| d.kind),
    {
        let mut kinds: HashMap<usize, DefKind> = HashMap::new();
        let n = self.next_def_id.0;
        let mut k: usize = 0;
        while k < n
            invariant
                k <= n,
                n == self.next_id(),
                self.wf(),
                kinds@ == self.definitions_view().restrict(Set::new(|j: usize| j < k)).map_values(
                    |d: Definition| d.kind,
                ),
            decreases n - k,
        {
            match self.definitions.get(&k) {
                Some(d) => {
                    kinds.insert(k, d.kind);
                },
                None => {},
            }
            k = k + 1;
            assert(kinds@ =~= self.definitions_view().restrict(Set::new(|j: usize| j < k)).map_values(
                |d: Definition| d.kind,
            ));
        }
        assert(self.definitions_view().restrict(Set::new(|j: usize| j < n)) =~= self.definitions_view());
        kinds
    }

    /// The id the next definition gets.
    pub fn next_def_id(&self) -> (r: DefId)
        ensures
            r.0 == self.next_id(),
    {
        self.next_def_id
    }

    pub fn increment_def_id(&mut self) -> (id: DefId)
        requires
            old(self).next_id() < usize::MAX,
        ensures
            id == DefId(old(self).next_id()),
            final(self).next_id() == old(self).next_id() + 1,
            final(self).definitions_view() == old(self).definitions_view(),
            final(self).resolutions_view() == old(self).resolutions_view(),
            final(self).ast_to_def_view() == old(self).ast_to_def_view(),
            final(self).partial_res_view() == old(self).partial_res_view(),
    {
        let current = self.next_def_id;
        self.next_def_id = DefId(current.0 + 1);
        current
    }

    /// Adds a definition for the node `id` under a fresh id.
    pub fn insert(&mut self, id: AstId, kind: DefKind) -> (def_id: DefId)
        requires
            old(self).next_id() < usize::MAX,
        ensures
            def_id == DefId(old(self).next_id()),
            final(self).next_id() == old(self).next_id() + 1,
            final(self).definitions_view() == old(self).definitions_view().insert(
                def_id.0,
                Definition { def_id, kind },
            ),
            final(self).ast_to_def_view() == old(self).ast_to_def_view().insert(id.0, def_id),
            final(self).resolutions_view() == old(self).resolutions_view(),
            final(self).partial_res_view() == old(self).partial_res_view(),
            old(self).wf() ==> final(self).wf(),
    {
        let def_id = self.increment_def_id();
        self.definitions.insert(def_id.0, Definition::new(def_id, kind));
        self.ast_to_def.insert(id.0, def_id);
        def_id
    }

    pub fn insert_ast_id(&mut self, ast_id: AstId, def_id: DefId)
        ensures
            old(self).wf() && old(self).definitions_view().contains_key(def_id.0) ==> final(self).wf(),
            final(self).ast_to_def_view() == old(self).ast_to_def_view().insert(ast_id.0, def_id),
            final(self).next_id() == old(self).next_id(),
            final(self).definitions_view() == old(self).definitions_view(),
            final(self).resolutions_view() == old(self).resolutions_view(),
            final(self).partial_res_view() == old(self).partial_res_view(),
    {
        self.ast_to_def.insert(ast_id.0, def_id);
        assert(self.definitions_view() == old(self).definitions_view());
        assert(forall|a: usize|
            #[trigger] self.ast_to_def_view().contains_key(a) ==> (a == ast_id.0 || old(
                self,
            ).ast_to_def_view().contains_key(a)));
    }

    pub fn get_definition(&self, def_id: DefId) -> (r: Option<&Definition>)
        ensures
            match r {
                Some(d) => self.definitions_view().contains_key(def_id.0) && *d == self.definitions_view()[def_id.0],
                None => !self.definitions_view().contains_key(def_id.0),
            },
    {
        self.definitions.get(&def_id.0)
    }

    pub fn get_def_from_ast(&self, ast_id: AstId) -> (r: Option<&DefId>)
        ensures
            match r {
                Some(d) => self.ast_to_def_view().contains_key(ast_id.0) && *d == self.ast_to_def_view()[ast_id.0],
                None => !self.ast_to_def_view().contains_key(ast_id.0),
            },
    {
        self.ast_to_def.get(&ast_id.0)
    }

    pub fn insert_resolution(&mut self, ast_id: AstId, resolution: Res<AstId>)
        ensures
            old(self).wf() ==> final(self).wf(),
            final(self).resolutions_view() == old(self).resolutions_view().insert(ast_id.0, resolution),
            final(self).next_id() == old(self).next_id(),
            final(self).definitions_view() == old(self).definitions_view(),
            final(self).ast_to_def_view() == old(self).ast_to_def_view(),
            final(self).partial_res_view() == old(self).partial_res_view(),
    {
        self.resolutions.insert(ast_id.0, resolution);
        assert(self.definitions_view() == old(self).definitions_view());
        assert(self.ast_to_def_view() == old(self).ast_to_def_view());
    }

    pub fn get_partial_res(&self, ast_id: AstId) -> (r: Option<&PartialRes>)
        ensures
            match r {
                Some(p) => self.partial_res_view().contains_key(ast_id.0) && *p == self.partial_res_view()[ast_id.0],
                None => !self.partial_res_view().contains_key(ast_id.0),
            },
    {
        self.partial_res.get(&ast_id.0)
    }

    pub fn insert_partial_res(&mut self, ast_id: AstId, partial_res: PartialRes)
        ensures
            old(self).wf() ==> final(self).wf(),
            final(self).partial_res_view() == old(self).partial_res_view().insert(ast_id.0, partial_res),
            final(self).next_id() == old(self).next_id(),
            final(self).definitions_view() == old(self).definitions_view(),
            final(self).ast_to_def_view() == old(self).ast_to_def_view(),
            final(self).resolutions_view() == old(self).resolutions_view(),
    {
        self.partial_res.insert(ast_id.0, partial_res);
        assert(self.definitions_view() == old(self).definitions_view());
        assert(self.ast_to_def_view() == old(self).ast_to_def_view());
    }

    pub fn get_resolution(&self, ast_id: AstId) -> (r: Option<&Res<AstId>>)
        ensures
            match r {
                Some(res) => self.resolutions_view().contains_key(ast_id.0) && *res == self.resolutions_view()[ast_id.0],
                None => !self.resolutions_view().contains_key(ast_id.0),
            },
    {
        self.resolutions.get(&ast_id.0)
    }
}

impl Default for DefinitionMap {
    fn default() -> (m: DefinitionMap)
        ensures
            m.definitions_view() == Map::<usize, Definition>::empty(),
            m.resolutions_view() == Map::<usize, Res<AstId>>::empty(),
            m.ast_to_def_view() == Map::<usize, DefId>::empty(),
            m.partial_res_view() == Map::<usize, PartialRes>::empty(),
            m.next_id() == 0,
            m.wf(),
    {
        DefinitionMap {
            definitions: HashMap::new(),
            resolutions: HashMap::new(),
            ast_to_def: HashMap::new(),
            partial_res: HashMap::new(),
            next_def_id: DefId(0),
        }
    }
}

/// A definition added for a node is found again: under its id, and as the
/// definition of that node; its id was not in use before.
pub proof fn law_insert_then_get_definition(
    before: &DefinitionMap,
    after: &DefinitionMap,
    id: AstId,
    kind: DefKind,
    def_id: DefId,
)
    requires
        before.wf(),
        def_id == DefId(before.next_id()),
        after.definitions_view() == before.definitions_view().insert(def_id.0, Definition { def_id, kind }),
        after.ast_to_def_view() == before.ast_to_def_view().insert(id.0, def_id),
    ensures
        !before.definitions_view().contains_key(def_id.0),
        after.definitions_view().contains_key(def_id.0),
        after.definitions_view()[def_id.0] == (Definition { def_id, kind }),
        after.ast_to_def_view().contains_key(id.0),
        after.ast_to_def_view()[id.0] == def_id,
        forall|k: usize| #[trigger] before.definitions_view().contains_key(k) ==> after.definitions_view()[k] == before.definitions_view()[k],
{
}

/// A resolution recorded for a node is what is read back for it; other
/// nodes keep theirs.
pub proof fn law_insert_then_get_resolution(before: &DefinitionMap, after: &DefinitionMap, id: AstId, res: Res<AstId>)
    requires
        after.resolutions_view() == before.resolutions_view().insert(id.0, res),
    ensures
        after.resolutions_view().contains_key(id.0),
        after.resolutions_view()[id.0] == res,
        forall|k: usize|
            k != id.0 && #[trigger] before.resolutions_view().contains_key(k) ==> after.resolutions_view()[k]
                == before.resolutions_view()[k],
{
}

} // verus!
