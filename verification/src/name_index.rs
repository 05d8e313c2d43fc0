//! The index from a name to the item that bore it first, kept in an
//! `FxHashMap` while the items of a file are walked.

use crate::item_tree::ModItem;
use core::hash::BuildHasherDefault;
use rustc_hash::{FxHashMap, FxHasher};
use vstd::prelude::*;

verus! {

/// `rustc_hash::FxHasher`, the hasher of an `FxHashMap`.
#[verifier::external_type_specification]
#[verifier::external_body]
pub struct ExFxHasher(FxHasher);

/// `core::hash::BuildHasherDefault`, which makes the hashers of an
/// `FxHashMap`.
#[verifier::external_type_specification]
#[verifier::external_body]
#[verifier::reject_recursive_types(H)]
pub struct ExBuildHasherDefault<H>(BuildHasherDefault<H>);

/// What an index holds: for each text that is a key, the item filed under it.
pub uninterp spec fn entries(index: FxHashMap<String, ModItem>) -> Map<Seq<char>, ModItem>;

/// `FxHashMap::default`: a map without entries.
#[verifier::external_body]
pub(crate) fn new_index() -> (fresh: FxHashMap<String, ModItem>)
    ensures
        entries(fresh).dom() == Set::<Seq<char>>::empty(),
{
    FxHashMap::default()
}

/// `HashMap::get` on an `FxHashMap` with `String` keys: the item filed under
/// the key whose text is `name`, if there is such a key. Keys are compared by
/// their text.
#[verifier::external_body]
pub(crate) fn index_get(index: &FxHashMap<String, ModItem>, name: &str) -> (found: Option<ModItem>)
    ensures
        found == if entries(*index).contains_key(name@) {
            Some(entries(*index)[name@])
        } else {
            None
        },
{
    index.get(name).copied()
}

/// `HashMap::insert` on an `FxHashMap` with `String` keys: afterwards `item` is
/// filed under `name`, and every other key has what it had.
#[verifier::external_body]
pub(crate) fn index_insert(index: &mut FxHashMap<String, ModItem>, name: String, item: ModItem)
    ensures
        entries(*final(index)) == entries(*old(index)).insert(name@, item),
{
    index.insert(name, item);
}

} // verus!
