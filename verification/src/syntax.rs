//! Positions in the syntax tree. The tree itself belongs to `mun_syntax`; the
//! model only carries pointers into it, from the item tree to the diagnostics.

use vstd::prelude::*;

verus! {

/// `mun_syntax::SyntaxNodePtr`: the text range and the kind of a syntax node.
/// Nothing of its inside is visible here; a pointer is only handed on.
#[verifier::external_type_specification]
#[verifier::external_body]
pub struct ExSyntaxNodePtr(mun_syntax::SyntaxNodePtr);

/// `<SyntaxNodePtr as Clone>::clone`, which the crate derives: the copy has the
/// range and the kind of the pointer it was made from, so it is the same pointer.
pub assume_specification[ <mun_syntax::SyntaxNodePtr as Clone>::clone ](
    ptr: &mun_syntax::SyntaxNodePtr,
) -> (copy: mun_syntax::SyntaxNodePtr)
    ensures
        copy == *ptr,
;

} // verus!
