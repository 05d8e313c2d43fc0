//! The definitions of a program as later phases see them: cheap handles, and
//! the data that each handle stands for.

pub mod function;
pub mod laws;
pub mod module;
pub mod structure;
pub mod type_alias;

use crate::builtin_type::BuiltinType;
use crate::ids::{FunctionId, StructId, TypeAliasId};
use vstd::prelude::*;
use vstd::std_specs::convert::FromSpecImpl;

verus! {

/// A function. The handle owns nothing: it names the function in a database.
#[derive(Debug, Clone, Copy, PartialEq, Eq, Hash, PartialOrd, Ord, Structural)]
pub struct Function {
    pub id: FunctionId,
}

/// A struct.
#[derive(Debug, Clone, Copy, PartialEq, Eq, Hash, Structural)]
pub struct Struct {
    pub id: StructId,
}

/// A type alias.
#[derive(Debug, Clone, Copy, PartialEq, Eq, Hash, Structural)]
pub struct TypeAlias {
    pub id: TypeAliasId,
}

/// What a module can declare.
#[derive(Debug, Clone, Copy, PartialEq, Eq, Hash, Structural)]
pub enum ModuleDef {
    Function(Function),
    BuiltinType(BuiltinType),
    Struct(Struct),
    TypeAlias(TypeAlias),
}

impl From<Function> for ModuleDef {
    fn from(t: Function) -> (def: Self) {
        ModuleDef::Function(t)
    }
}

impl FromSpecImpl<Function> for ModuleDef {
    open spec fn obeys_from_spec() -> bool {
        true
    }

    open spec fn from_spec(t: Function) -> Self {
        ModuleDef::Function(t)
    }
}

impl From<BuiltinType> for ModuleDef {
    fn from(t: BuiltinType) -> (def: Self) {
        ModuleDef::BuiltinType(t)
    }
}

impl FromSpecImpl<BuiltinType> for ModuleDef {
    open spec fn obeys_from_spec() -> bool {
        true
    }

    open spec fn from_spec(t: BuiltinType) -> Self {
        ModuleDef::BuiltinType(t)
    }
}

impl From<Struct> for ModuleDef {
    fn from(t: Struct) -> (def: Self) {
        ModuleDef::Struct(t)
    }
}

impl FromSpecImpl<Struct> for ModuleDef {
    open spec fn obeys_from_spec() -> bool {
        true
    }

    open spec fn from_spec(t: Struct) -> Self {
        ModuleDef::Struct(t)
    }
}

/// The definitions that have a body.
#[derive(Debug, Clone, Copy, PartialEq, Eq, Hash, Structural)]
pub enum DefWithBody {
    Function(Function),
}

impl DefWithBody {
    /// The function that has the body.
    pub open spec fn function(self) -> Function {
        match self {
            DefWithBody::Function(f) => f,
        }
    }
}

impl From<Function> for DefWithBody {
    fn from(t: Function) -> (def: Self) {
        DefWithBody::Function(t)
    }
}

impl FromSpecImpl<Function> for DefWithBody {
    open spec fn obeys_from_spec() -> bool {
        true
    }

    open spec fn from_spec(t: Function) -> Self {
        DefWithBody::Function(t)
    }
}

/// The definitions that have fields.
#[derive(Debug, Clone, Copy, PartialEq, Eq, Hash, Structural)]
pub enum DefWithStruct {
    Struct(Struct),
}

impl From<Struct> for DefWithStruct {
    fn from(t: Struct) -> (def: Self) {
        DefWithStruct::Struct(t)
    }
}

impl FromSpecImpl<Struct> for DefWithStruct {
    open spec fn obeys_from_spec() -> bool {
        true
    }

    open spec fn from_spec(t: Struct) -> Self {
        DefWithStruct::Struct(t)
    }
}

/// Whether a definition can be seen from outside its module.
#[derive(Debug, Clone, Copy, PartialEq, Eq, Structural)]
pub enum Visibility {
    Public,
    Private,
}

impl Visibility {
    pub fn is_public(self) -> (public: bool)
        ensures
            public == (self == Visibility::Public),
    {
        self == Visibility::Public
    }

    pub fn is_private(self) -> (private: bool)
        ensures
            private == (self == Visibility::Private),
    {
        self == Visibility::Private
    }
}

} // verus!
