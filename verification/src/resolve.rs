//! Resolvers: the scopes in which the names of a definition are looked up,
//! innermost last.

use crate::ids::FileId;
use vstd::prelude::*;

verus! {

/// One level of names.
#[derive(Debug, Clone, Copy, PartialEq, Eq, Hash, Structural)]
pub enum Scope {
    /// The names that the module of a file declares.
    ModuleScope(FileId),
}

/// A stack of scopes. A resolver is a value of its own: pushing a scope gives
/// a new resolver and touches no other.
#[derive(Debug, PartialEq, Eq)]
pub struct Resolver {
    scopes: Vec<Scope>,
}

impl View for Resolver {
    type V = Seq<Scope>;

    closed spec fn view(&self) -> Seq<Scope> {
        self.scopes@
    }
}

impl Default for Resolver {
    /// A resolver without scopes.
    fn default() -> (resolver: Resolver)
        ensures
            resolver@ == Seq::<Scope>::empty(),
    {
        Resolver { scopes: Vec::new() }
    }
}

impl Resolver {
    /// The resolver with the scope of a module on top.
    pub fn push_module_scope(self, file_id: FileId) -> (resolver: Resolver)
        ensures
            resolver@ == self@.push(Scope::ModuleScope(file_id)),
    {
        self.push_scope(Scope::ModuleScope(file_id))
    }

    fn push_scope(self, scope: Scope) -> (resolver: Resolver)
        ensures
            resolver@ == self@.push(scope),
    {
        let mut resolver = self;
        resolver.scopes.push(scope);
        resolver
    }

    /// The scopes, outermost first.
    pub fn scopes(&self) -> (scopes: &[Scope])
        ensures
            scopes@ == self@,
    {
        self.scopes.as_slice()
    }
}

} // verus!
