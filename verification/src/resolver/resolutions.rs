use crate::parser::ast::AstId;
use crate::resolver::defs::DefId;
use std::collections::HashMap;
use vstd::prelude::*;

verus! {

broadcast use vstd::std_specs::hash::group_hash_axioms;

/// The definition each node refers to, keyed by the number inside its id.
pub struct ResolutionMap {
    map: HashMap<usize, DefId>,
}

impl ResolutionMap {
    pub closed spec fn view(&self) -> Map<usize, DefId> {
        self.map@
    }

    pub fn insert(&mut self, ast_id: AstId, def_id: DefId)
        ensures
            final(self)@ == old(self)@.insert(ast_id.0, def_id),
    {
        self.map.insert(ast_id.0, def_id);
    }

    pub fn get(&self, ast_id: AstId) -> (r: Option<DefId>)
        ensures
            r == (if self@.contains_key(ast_id.0) {
                Some(self@[ast_id.0])
            } else {
                None
            }),
    {
        match self.map.get(&ast_id.0) {
            Some(d) => Some(*d),
            None => None,
        }
    }
}

impl Default for ResolutionMap {
    fn default() -> (m: ResolutionMap)
        ensures
            m@ == Map::<usize, DefId>::empty(),
    {
        ResolutionMap { map: HashMap::new() }
    }
}

/// The definition recorded for a node is what `get` gives back for it.
pub proof fn law_resolution_insert_then_get(before: &ResolutionMap, after: &ResolutionMap, id: AstId, def_id: DefId)
    requires
        after@ == before@.insert(id.0, def_id),
    ensures
        after@.contains_key(id.0),
        after@[id.0] == def_id,
{
}

} // verus!
