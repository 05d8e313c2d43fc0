//! Identities. A definition is found in the syntax by its location: the file
//! and the place in that file's item tree. Interning gives each location a
//! small number that stands for it for as long as the table lives.

use std::collections::HashMap;
use vstd::prelude::*;

verus! {

broadcast use vstd::std_specs::hash::group_hash_axioms;

/// A handle to one source file.
#[derive(Debug, Clone, Copy, PartialEq, Eq, Hash, Structural)]
pub struct FileId(pub u32);

/// The place of an item: its file and its index among the items of its kind in
/// that file's item tree.
#[derive(Debug, Clone, Copy, PartialEq, Eq, Hash, Structural)]
pub struct ItemTreeId {
    pub file_id: FileId,
    pub value: usize,
}

impl ItemTreeId {
    pub fn new(file_id: FileId, value: usize) -> (id: ItemTreeId)
        ensures
            id == (ItemTreeId { file_id, value }),
    {
        ItemTreeId { file_id, value }
    }
}

/// The number under which a location is filed in the table's index. Distinct
/// locations have distinct keys.
pub open spec fn loc_key(loc: ItemTreeId) -> int {
    loc.file_id.0 * 0x1_0000_0000_0000_0000 + loc.value
}

/// What interning `loc` does to a table and which number it gives: a location
/// the table holds keeps its number, a new one is appended.
pub open spec fn intern_spec(table: Seq<ItemTreeId>, loc: ItemTreeId) -> (Seq<ItemTreeId>, int) {
    if table.contains(loc) {
        (table, table.index_of(loc))
    } else {
        (table.push(loc), table.len() as int)
    }
}

/// A table of interned locations. Its view lists the locations by number: the
/// location with number `i` is `table@[i]`.
pub struct InternTable {
    locs: Vec<ItemTreeId>,
    index: HashMap<u128, usize>,
}

impl View for InternTable {
    type V = Seq<ItemTreeId>;

    closed spec fn view(&self) -> Seq<ItemTreeId> {
        self.locs@
    }
}

impl InternTable {
    /// The index knows exactly the locations of the list, each under its number.
    pub closed spec fn wf(&self) -> bool {
        &&& forall|i: int|
            0 <= i < self.locs@.len() ==> {
                &&& self.index@.contains_key(loc_key(#[trigger] self.locs@[i]) as u128)
                &&& self.index@[loc_key(self.locs@[i]) as u128] == i
            }
        &&& forall|k: u128| #[trigger]
            self.index@.contains_key(k) ==> {
                &&& self.index@[k] < self.locs@.len()
                &&& loc_key(self.locs@[self.index@[k] as int]) == k
            }
    }

    /// No location is filed under two numbers.
    pub proof fn lemma_no_duplicates(&self)
        requires
            self.wf(),
        ensures
            self@.no_duplicates(),
    {
    }

    /// The numbers fit a `usize`.
    pub proof fn lemma_len_fits(&self)
        ensures
            self@.len() <= usize::MAX,
    {
        assert(self.locs@.len() == self.locs.len());
    }

    pub fn new() -> (table: InternTable)
        ensures
            table.wf(),
            table@ == Seq::<ItemTreeId>::empty(),
    {
        InternTable { locs: Vec::new(), index: HashMap::new() }
    }

    /// How many locations have been interned.
    pub fn len(&self) -> (n: usize)
        ensures
            n == self@.len(),
    {
        self.locs.len()
    }

    fn key_of(loc: ItemTreeId) -> (key: u128)
        ensures
            key == loc_key(loc),
    {
        (loc.file_id.0 as u128) * 0x1_0000_0000_0000_0000u128 + (loc.value as u128)
    }

    /// The number of `loc`, which is filed now if it was not before.
    pub fn intern(&mut self, loc: ItemTreeId) -> (id: usize)
        requires
            old(self).wf(),
        ensures
            final(self).wf(),
            (final(self)@, id as int) == intern_spec(old(self)@, loc),
    {
        let key = Self::key_of(loc);
        match self.index.get(&key) {
            Some(id) => {
                let id = *id;
                id
            },
            None => {
                let id = self.locs.len();
                assert(!self@.contains(loc));
                self.locs.push(loc);
                self.index.insert(key, id);
                id
            },
        }
    }

    /// The location that was interned under `id`.
    pub fn lookup(&self, id: usize) -> (loc: ItemTreeId)
        requires
            id < self@.len(),
        ensures
            loc == self@[id as int],
    {
        self.locs[id]
    }
}

} // verus!

verus! {

/// The table after each location of `locs` that is there has been interned, in
/// order, the first `n` entries of `locs` taken.
pub open spec fn intern_each(table: Seq<ItemTreeId>, locs: Seq<Option<ItemTreeId>>, n: int) -> Seq<
    ItemTreeId,
>
    decreases n,
{
    if n <= 0 {
        table
    } else {
        let before = intern_each(table, locs, n - 1);
        match locs[n - 1] {
            Some(loc) => intern_spec(before, loc).0,
            None => before,
        }
    }
}

/// Interning never moves a location that the table already holds.
pub proof fn lemma_intern_keeps(table: Seq<ItemTreeId>, loc: ItemTreeId)
    requires
        table.no_duplicates(),
    ensures
        intern_spec(table, loc).0.no_duplicates(),
        table.is_prefix_of(intern_spec(table, loc).0),
        intern_spec(table, loc).0.contains(loc),
        0 <= intern_spec(table, loc).1 < intern_spec(table, loc).0.len(),
        intern_spec(table, loc).0[intern_spec(table, loc).1] == loc,
        intern_spec(table, loc).0.index_of(loc) == intern_spec(table, loc).1,
{
    if !table.contains(loc) {
        assert(intern_spec(table, loc).0[table.len() as int] == loc);
    }
}

/// In a table without duplicates a location is found at its own number.
pub proof fn lemma_index_of_unique(table: Seq<ItemTreeId>, i: int)
    requires
        table.no_duplicates(),
        0 <= i < table.len(),
    ensures
        table.index_of(table[i]) == i,
{
}

/// A location keeps its number when the table grows.
pub proof fn lemma_index_of_extended(
    table: Seq<ItemTreeId>,
    longer: Seq<ItemTreeId>,
    loc: ItemTreeId,
)
    requires
        longer.no_duplicates(),
        table.is_prefix_of(longer),
        table.contains(loc),
    ensures
        longer.contains(loc),
        longer.index_of(loc) == table.index_of(loc),
{
}

/// Interning a run of locations only appends to the table.
pub proof fn lemma_intern_each_extends(
    table: Seq<ItemTreeId>,
    locs: Seq<Option<ItemTreeId>>,
    n: int,
)
    requires
        table.no_duplicates(),
        0 <= n <= locs.len(),
    ensures
        intern_each(table, locs, n).no_duplicates(),
        table.is_prefix_of(intern_each(table, locs, n)),
        forall|k: int|
            0 <= k < n && locs[k] is Some ==> intern_each(table, locs, n).contains(
                #[trigger] locs[k]->0,
            ),
    decreases n,
{
    if n > 0 {
        lemma_intern_each_extends(table, locs, n - 1);
        let before = intern_each(table, locs, n - 1);
        match locs[n - 1] {
            Some(loc) => {
                lemma_intern_keeps(before, loc);
            },
            None => {},
        }
    }
}

/// Interning locations that the table holds changes nothing.
pub proof fn lemma_intern_each_known(
    table: Seq<ItemTreeId>,
    locs: Seq<Option<ItemTreeId>>,
    n: int,
)
    requires
        0 <= n <= locs.len(),
        forall|k: int| 0 <= k < n && locs[k] is Some ==> table.contains(#[trigger] locs[k]->0),
    ensures
        intern_each(table, locs, n) == table,
    decreases n,
{
    if n > 0 {
        lemma_intern_each_known(table, locs, n - 1);
    }
}

/// Interning is idempotent: the location that was just interned gets the same
/// number again, and the table stays as it is.
pub proof fn lemma_intern_idempotent(table: Seq<ItemTreeId>, loc: ItemTreeId)
    requires
        table.no_duplicates(),
    ensures
        intern_spec(intern_spec(table, loc).0, loc) == intern_spec(table, loc),
{
    lemma_intern_keeps(table, loc);
}

/// Interning is injective: two distinct locations never get the same number,
/// in whichever order they are interned.
pub proof fn lemma_intern_injective(table: Seq<ItemTreeId>, a: ItemTreeId, b: ItemTreeId)
    requires
        table.no_duplicates(),
        a != b,
    ensures
        intern_spec(table, a).1 != intern_spec(intern_spec(table, a).0, b).1,
        intern_spec(intern_spec(table, a).0, b).0[intern_spec(table, a).1] == a,
{
}

/// A location of a function in the item tree of its file.
#[derive(Debug, Clone, Copy, PartialEq, Eq, Hash, Structural)]
pub struct FunctionLoc {
    pub id: ItemTreeId,
}

/// A location of a struct in the item tree of its file.
#[derive(Debug, Clone, Copy, PartialEq, Eq, Hash, Structural)]
pub struct StructLoc {
    pub id: ItemTreeId,
}

/// A location of a type alias in the item tree of its file.
#[derive(Debug, Clone, Copy, PartialEq, Eq, Hash, Structural)]
pub struct TypeAliasLoc {
    pub id: ItemTreeId,
}

/// The identity of a function: the number of its location in the table of
/// functions.
#[derive(Debug, Clone, Copy, PartialEq, Eq, Hash, PartialOrd, Ord, Structural)]
pub struct FunctionId(pub usize);

/// The identity of a struct.
#[derive(Debug, Clone, Copy, PartialEq, Eq, Hash, PartialOrd, Ord, Structural)]
pub struct StructId(pub usize);

/// The identity of a type alias.
#[derive(Debug, Clone, Copy, PartialEq, Eq, Hash, PartialOrd, Ord, Structural)]
pub struct TypeAliasId(pub usize);

} // verus!
