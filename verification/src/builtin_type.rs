//! The types that the language brings with it.

use vstd::prelude::*;

verus! {

/// A type that needs no definition.
#[derive(Debug, Clone, Copy, PartialEq, Eq, Hash, Structural)]
pub enum BuiltinType {
    Float,
    Int,
    Bool,
}

} // verus!
