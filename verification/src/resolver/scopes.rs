use crate::resolver::defs::DefId;
use crate::resolver::names::NameTable;
use vstd::prelude::*;

verus! {

/// A scope of names nested in its parent scope.
pub struct Scope<'a> {
    parent: Option<&'a Scope<'a>>,
    symbols: NameTable<DefId>,
}

impl<'a> Scope<'a> {
    /// The scope and all scopes it is nested in are well formed.
    pub closed spec fn wf(&self) -> bool
        decreases self,
    {
        &&& self.symbols.wf()
        &&& match self.parent {
            Some(p) => p.wf(),
            None => true,
        }
    }

    /// The names bound in this scope itself.
    pub closed spec fn symbols(&self) -> Map<Seq<char>, DefId> {
        self.symbols@
    }

    pub closed spec fn spec_parent(&self) -> Option<&'a Scope<'a>> {
        self.parent
    }

    /// What a name resolves to: its binding in the innermost scope that binds it.
    pub closed spec fn resolve(&self, name: Seq<char>) -> Option<DefId>
        decreases self,
    {
        if self.symbols@.contains_key(name) {
            Some(self.symbols@[name])
        } else {
            match self.parent {
                Some(p) => p.resolve(name),
                None => None,
            }
        }
    }

    pub fn new(parent: Option<&'a Scope<'a>>) -> (s: Scope<'a>)
        requires
            parent matches Some(p) ==> p.wf(),
        ensures
            s.wf(),
            s.spec_parent() == parent,
            s.symbols() == Map::<Seq<char>, DefId>::empty(),
            forall|name: Seq<char>|
                #[trigger] s.resolve(name) == match parent {
                    Some(p) => p.resolve(name),
                    None => None,
                },
    {
        Scope { parent, symbols: NameTable::new() }
    }

    pub fn child(&'a self) -> (s: Scope<'a>)
        requires
            self.wf(),
        ensures
            s.wf(),
            s.spec_parent() == Some(self),
            s.symbols() == Map::<Seq<char>, DefId>::empty(),
            forall|name: Seq<char>| #[trigger] s.resolve(name) == self.resolve(name),
    {
        Self::new(Some(self))
    }

    pub fn insert(&mut self, name: String, def_id: DefId)
        requires
            old(self).wf(),
        ensures
            final(self).wf(),
            final(self).spec_parent() == old(self).spec_parent(),
            final(self).symbols() == old(self).symbols().insert(name@, def_id),
    {
        self.symbols.insert(name, def_id);
    }

    pub fn lookup(&self, name: &str) -> (r: Option<DefId>)
        requires
            self.wf(),
        ensures
            r == self.resolve(name@),
    {
        let owned = name.to_owned();
        self.lookup_name(&owned)
    }

    fn lookup_name(&self, name: &String) -> (r: Option<DefId>)
        requires
            self.wf(),
        ensures
            r == self.resolve(name@),
        decreases self,
    {
        match self.symbols.get(name) {
            Some(def) => Some(*def),
            None => match self.parent {
                Some(p) => p.lookup_name(name),
                None => None,
            },
        }
    }
}

impl<'a> Default for Scope<'a> {
    fn default() -> (s: Scope<'a>)
        ensures
            s.wf(),
            s.spec_parent() is None,
            s.symbols() == Map::<Seq<char>, DefId>::empty(),
    {
        Self::new(None)
    }
}

/// A name inserted in a scope resolves to what it was inserted with; a
/// child scope resolves every name as its parent until it binds it itself.
pub proof fn law_scope_insert_then_lookup<'a>(before: &Scope<'a>, after: &Scope<'a>, name: Seq<char>, def_id: DefId)
    requires
        after.symbols() == before.symbols().insert(name, def_id),
        after.spec_parent() == before.spec_parent(),
    ensures
        after.resolve(name) == Some(def_id),
        forall|n: Seq<char>| n != name ==> #[trigger] after.resolve(n) == before.resolve(n),
{
    assert forall|n: Seq<char>| n != name implies #[trigger] after.resolve(n) == before.resolve(n) by {
        assert(after.symbols().contains_key(n) == before.symbols().contains_key(n));
    }
}

/// In a scope with no parent, a name resolves to its own binding, and a
/// name the scope does not bind resolves to nothing.
pub proof fn law_root_scope_lookup<'a>(root: &Scope<'a>, name: Seq<char>)
    requires
        root.spec_parent() is None,
    ensures
        root.symbols().contains_key(name) ==> root.resolve(name) == Some(root.symbols()[name]),
        !root.symbols().contains_key(name) ==> root.resolve(name) is None,
{
}

/// A child scope resolves a name it binds to its own binding, and any other
/// name as its parent does.
pub proof fn law_child_scope_shadows<'a>(parent: &'a Scope<'a>, child: &Scope<'a>, name: Seq<char>)
    requires
        child.spec_parent() == Some(parent),
    ensures
        child.symbols().contains_key(name) ==> child.resolve(name) == Some(child.symbols()[name]),
        !child.symbols().contains_key(name) ==> child.resolve(name) == parent.resolve(name),
{
}

} // verus!
