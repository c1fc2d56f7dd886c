use crate::parser::ast::{AstNode, Ident};
use crate::resolver::defs::DefId;
use crate::resolver::names::NameTable;
use vstd::prelude::*;

verus! {

/// Identifies a module of the module arena.
#[derive(Clone, Copy, Debug, PartialEq, Eq, Structural)]
pub struct ModuleId(pub usize);

/// Identifies an import of the module arena.
#[derive(Clone, Copy, Debug, PartialEq, Eq, Structural)]
pub struct ImportId(pub usize);

#[derive(Clone, Copy, Debug, PartialEq, Eq, Structural)]
pub enum ModuleKind {
    Block,
    Def(DefId),
}

/// What a name of a module is bound to.
#[derive(Clone, Copy, Debug, PartialEq, Eq, Structural)]
pub enum Binding {
    Item(DefId),
    Module(ModuleId),
    Import(ImportId),
}

/// A scope of items: a `mod`, an enum, a trait or a block.
pub struct Module {
    pub kind: ModuleKind,
    parent: Option<ModuleId>,
    items: NameTable<Binding>,
}

impl Module {
    pub closed spec fn wf(&self) -> bool {
        self.items.wf()
    }

    pub closed spec fn spec_kind(&self) -> ModuleKind {
        self.kind
    }

    pub closed spec fn spec_parent(&self) -> Option<ModuleId> {
        self.parent
    }

    /// The names defined in the module.
    pub closed spec fn items(&self) -> Map<Seq<char>, Binding> {
        self.items@
    }

    pub fn root() -> (m: Module)
        ensures
            m.wf(),
            m.spec_kind() == ModuleKind::Block,
            m.spec_parent() is None,
            m.items() == Map::<Seq<char>, Binding>::empty(),
    {
        Module { parent: None, items: NameTable::new(), kind: ModuleKind::Block }
    }

    pub fn new(parent: ModuleId, kind: ModuleKind) -> (m: Module)
        ensures
            m.wf(),
            m.spec_kind() == kind,
            m.spec_parent() == Some(parent),
            m.items() == Map::<Seq<char>, Binding>::empty(),
    {
        Module { parent: Some(parent), items: NameTable::new(), kind }
    }

    pub fn define(&mut self, ident: Ident, binding: Binding)
        requires
            old(self).wf(),
        ensures
            final(self).wf(),
            final(self).spec_kind() == old(self).spec_kind(),
            final(self).spec_parent() == old(self).spec_parent(),
            final(self).items() == old(self).items().insert(ident.name@, binding),
    {
        self.items.insert(ident.name, binding);
    }

    pub fn get(&self, ident: &Ident) -> (r: Option<&Binding>)
        requires
            self.wf(),
        ensures
            match r {
                Some(b) => self.items().contains_key(ident.name@) && self.items()[ident.name@] == *b,
                None => !self.items().contains_key(ident.name@),
            },
    {
        self.items.get(&ident.name)
    }

    pub fn parent(&self) -> (r: Option<ModuleId>)
        ensures
            r == self.spec_parent(),
    {
        self.parent
    }

    pub fn kind(&self) -> (r: ModuleKind)
        ensures
            r == self.spec_kind(),
    {
        self.kind
    }
}

/// A `use` of a path, made in `parent_module`; `path` holds the segments'
/// identifiers.
pub struct Import {
    pub path: Vec<AstNode<Ident>>,
    pub parent_module: ModuleId,
    pub resolved_binding: Option<Binding>,
}

impl Import {
    pub fn new(path: Vec<AstNode<Ident>>, parent_module: ModuleId) -> (i: Import)
        ensures
            i.path@ == path@,
            i.parent_module == parent_module,
            i.resolved_binding is None,
    {
        Import { path, parent_module, resolved_binding: None }
    }
}

/// A name defined in a module is what `get` gives back for it; other names
/// keep their bindings, and the module keeps its kind and parent.
pub proof fn law_define_then_get(before: &Module, after: &Module, name: Seq<char>, binding: Binding)
    requires
        after.items() == before.items().insert(name, binding),
    ensures
        after.items().contains_key(name),
        after.items()[name] == binding,
        forall|n: Seq<char>|
            n != name ==> (#[trigger] after.items().contains_key(n) == before.items().contains_key(n)
                && (before.items().contains_key(n) ==> after.items()[n] == before.items()[n])),
{
}

} // verus!
