//! The databases. [`DefDatabase`] holds what the definitions are made from:
//! the item tree of each file and the tables of identities.

use crate::ids::{
    intern_spec, FileId, FunctionId, FunctionLoc, InternTable, ItemTreeId, StructId, StructLoc,
    TypeAliasId, TypeAliasLoc,
};
use crate::item_tree::{FunctionItem, ItemTree, StructItem, TypeAliasItem};
use crate::adt::{struct_data_of, type_alias_data_of, StructData, TypeAliasData};
use crate::code_model::function::{function_data_of, FunctionData};
use crate::code_model::module::{
    item_interned, lemma_module_data_kept, module_data_of, function_locs, struct_locs,
    type_alias_locs, ModuleData,
};
use crate::code_model::{DefWithBody, Function, Struct, TypeAlias};
use crate::diagnostics::Finding;
use crate::expr::{Body, BodySourceMap};
use crate::ids::{intern_each, lemma_intern_each_extends};
use crate::ty::{InferenceResult, LowerBatchResult, Ty};
use vstd::prelude::*;

verus! {

/// The item trees of the files and the identities of their definitions.
pub struct DefDatabase {
    files: Vec<ItemTree>,
    functions: InternTable,
    structs: InternTable,
    type_aliases: InternTable,
}

impl DefDatabase {
    /// The item trees, by file.
    pub closed spec fn files(&self) -> Seq<ItemTree> {
        self.files@
    }

    /// The locations of the functions, by identity.
    pub closed spec fn functions(&self) -> Seq<ItemTreeId> {
        self.functions@
    }

    /// The locations of the structs, by identity.
    pub closed spec fn structs(&self) -> Seq<ItemTreeId> {
        self.structs@
    }

    /// The locations of the type aliases, by identity.
    pub closed spec fn type_aliases(&self) -> Seq<ItemTreeId> {
        self.type_aliases@
    }

    /// The tables are in order.
    pub closed spec fn tables_wf(&self) -> bool {
        &&& self.functions.wf()
        &&& self.structs.wf()
        &&& self.type_aliases.wf()
    }

    pub open spec fn has_file(&self, file_id: FileId) -> bool {
        file_id.0 < self.files().len()
    }

    /// The item tree of a file.
    pub open spec fn tree(&self, file_id: FileId) -> ItemTree {
        self.files()[file_id.0 as int]
    }

    /// Whether `loc` is the place of a function.
    pub open spec fn has_function_item(&self, loc: ItemTreeId) -> bool {
        self.has_file(loc.file_id) && loc.value < self.tree(loc.file_id).functions@.len()
    }

    /// Whether `loc` is the place of a struct.
    pub open spec fn has_struct_item(&self, loc: ItemTreeId) -> bool {
        self.has_file(loc.file_id) && loc.value < self.tree(loc.file_id).structs@.len()
    }

    /// Whether `loc` is the place of a type alias.
    pub open spec fn has_type_alias_item(&self, loc: ItemTreeId) -> bool {
        self.has_file(loc.file_id) && loc.value < self.tree(loc.file_id).type_aliases@.len()
    }

    /// Whether `id` is the identity of a function of this database.
    pub open spec fn has_function(&self, id: FunctionId) -> bool {
        id.0 < self.functions().len()
    }

    /// Whether `id` is the identity of a struct of this database.
    pub open spec fn has_struct(&self, id: StructId) -> bool {
        id.0 < self.structs().len()
    }

    /// Whether `id` is the identity of a type alias of this database.
    pub open spec fn has_type_alias(&self, id: TypeAliasId) -> bool {
        id.0 < self.type_aliases().len()
    }

    /// The item that a function is made from.
    pub open spec fn function_item(&self, id: FunctionId) -> FunctionItem {
        self.tree(self.functions()[id.0 as int].file_id).functions@[self.functions()[id.0 as int].value as int]
    }

    /// The item that a struct is made from.
    pub open spec fn struct_item(&self, id: StructId) -> StructItem {
        self.tree(self.structs()[id.0 as int].file_id).structs@[self.structs()[id.0 as int].value as int]
    }

    /// The item that a type alias is made from.
    pub open spec fn type_alias_item(&self, id: TypeAliasId) -> TypeAliasItem {
        self.tree(self.type_aliases()[id.0 as int].file_id).type_aliases@[self.type_aliases()[id.0 as int].value as int]
    }

    /// Every file has a number that fits a [`FileId`], every tree is in order,
    /// and every identity stands for an item that is there.
    pub open spec fn wf(&self) -> bool {
        &&& self.tables_wf()
        &&& self.files().len() <= u32::MAX as nat + 1
        &&& forall|f: int| 0 <= f < self.files().len() ==> (#[trigger] self.files()[f]).wf()
        &&& forall|i: int|
            0 <= i < self.functions().len() ==> self.has_function_item(#[trigger] self.functions()[i])
        &&& forall|i: int|
            0 <= i < self.structs().len() ==> self.has_struct_item(#[trigger] self.structs()[i])
        &&& forall|i: int|
            0 <= i < self.type_aliases().len() ==> self.has_type_alias_item(
                #[trigger] self.type_aliases()[i],
            )
    }

    /// No location has two identities.
    pub proof fn lemma_no_duplicates(&self)
        requires
            self.tables_wf(),
        ensures
            self.functions().no_duplicates(),
            self.structs().no_duplicates(),
            self.type_aliases().no_duplicates(),
    {
        self.functions.lemma_no_duplicates();
        self.structs.lemma_no_duplicates();
        self.type_aliases.lemma_no_duplicates();
    }

    /// Every identity fits a `usize`.
    pub proof fn lemma_tables_fit(&self)
        ensures
            self.functions().len() <= usize::MAX,
            self.structs().len() <= usize::MAX,
            self.type_aliases().len() <= usize::MAX,
    {
        self.functions.lemma_len_fits();
        self.structs.lemma_len_fits();
        self.type_aliases.lemma_len_fits();
    }

    /// A table that has not changed still points at items that are there, as
    /// long as the files are the same.
    proof fn lemma_items_kept(before: DefDatabase, after: DefDatabase)
        requires
            before.wf(),
            after.files() == before.files(),
        ensures
            after.functions() == before.functions() ==> forall|i: int|
                0 <= i < after.functions().len() ==> after.has_function_item(
                    #[trigger] after.functions()[i],
                ),
            after.structs() == before.structs() ==> forall|i: int|
                0 <= i < after.structs().len() ==> after.has_struct_item(
                    #[trigger] after.structs()[i],
                ),
            after.type_aliases() == before.type_aliases() ==> forall|i: int|
                0 <= i < after.type_aliases().len() ==> after.has_type_alias_item(
                    #[trigger] after.type_aliases()[i],
                ),
    {
    }

    /// A database without files.
    pub fn new() -> (db: DefDatabase)
        ensures
            db.wf(),
            db.files().len() == 0,
            db.functions().len() == 0,
            db.structs().len() == 0,
            db.type_aliases().len() == 0,
    {
        DefDatabase {
            files: Vec::new(),
            functions: InternTable::new(),
            structs: InternTable::new(),
            type_aliases: InternTable::new(),
        }
    }

    /// The number of files.
    pub fn file_count(&self) -> (n: usize)
        ensures
            n == self.files().len(),
    {
        self.files.len()
    }

    /// Takes in the item tree of a new file and gives the file its handle.
    pub fn add_file(&mut self, tree: ItemTree) -> (file_id: FileId)
        requires
            old(self).wf(),
            tree.wf(),
            old(self).files().len() <= u32::MAX,
        ensures
            final(self).wf(),
            file_id.0 == old(self).files().len(),
            final(self).files() == old(self).files().push(tree),
            final(self).functions() == old(self).functions(),
            final(self).structs() == old(self).structs(),
            final(self).type_aliases() == old(self).type_aliases(),
    {
        let file_id = FileId(self.files.len() as u32);
        self.files.push(tree);
        assert forall|i: int| 0 <= i < self.functions().len() implies self.has_function_item(
            #[trigger] self.functions()[i],
        ) by {
            assert(old(self).has_function_item(old(self).functions()[i]));
        }
        assert forall|i: int| 0 <= i < self.structs().len() implies self.has_struct_item(
            #[trigger] self.structs()[i],
        ) by {
            assert(old(self).has_struct_item(old(self).structs()[i]));
        }
        assert forall|i: int| 0 <= i < self.type_aliases().len() implies self.has_type_alias_item(
            #[trigger] self.type_aliases()[i],
        ) by {
            assert(old(self).has_type_alias_item(old(self).type_aliases()[i]));
        }
        file_id
    }

    /// The number of functions that have an identity.
    pub fn function_count(&self) -> (n: usize)
        ensures
            n == self.functions().len(),
    {
        self.functions.len()
    }

    /// The number of structs that have an identity.
    pub fn struct_count(&self) -> (n: usize)
        ensures
            n == self.structs().len(),
    {
        self.structs.len()
    }

    /// The number of type aliases that have an identity.
    pub fn type_alias_count(&self) -> (n: usize)
        ensures
            n == self.type_aliases().len(),
    {
        self.type_aliases.len()
    }

    /// The item that a function is made from.
    pub fn function_item_ref(&self, id: FunctionId) -> (item: &FunctionItem)
        requires
            self.wf(),
            self.has_function(id),
        ensures
            *item == self.function_item(id),
    {
        let loc = self.functions.lookup(id.0);
        &self.files[loc.file_id.0 as usize].functions[loc.value]
    }

    /// The item that a struct is made from.
    pub fn struct_item_ref(&self, id: StructId) -> (item: &StructItem)
        requires
            self.wf(),
            self.has_struct(id),
        ensures
            *item == self.struct_item(id),
    {
        let loc = self.structs.lookup(id.0);
        &self.files[loc.file_id.0 as usize].structs[loc.value]
    }

    /// The item that a type alias is made from.
    pub fn type_alias_item_ref(&self, id: TypeAliasId) -> (item: &TypeAliasItem)
        requires
            self.wf(),
            self.has_type_alias(id),
        ensures
            *item == self.type_alias_item(id),
    {
        let loc = self.type_aliases.lookup(id.0);
        &self.files[loc.file_id.0 as usize].type_aliases[loc.value]
    }

    /// The item tree of a file.
    pub fn item_tree(&self, file_id: FileId) -> (tree: &ItemTree)
        requires
            self.has_file(file_id),
        ensures
            *tree == self.tree(file_id),
    {
        &self.files[file_id.0 as usize]
    }
}

impl FunctionLoc {
    /// The identity of the function at this location: the one it has, or a new
    /// one if it is seen for the first time.
    pub fn intern(self, db: &mut DefDatabase) -> (id: FunctionId)
        requires
            old(db).wf(),
            old(db).has_function_item(self.id),
        ensures
            final(db).wf(),
            final(db).files() == old(db).files(),
            final(db).structs() == old(db).structs(),
            final(db).type_aliases() == old(db).type_aliases(),
            (final(db).functions(), id.0 as int) == intern_spec(old(db).functions(), self.id),
    {
        let id = db.functions.intern(self.id);
        proof {
            DefDatabase::lemma_items_kept(*old(db), *db);
        }
        FunctionId(id)
    }
}

impl FunctionId {
    /// The location that this identity stands for.
    pub fn lookup(self, db: &DefDatabase) -> (loc: FunctionLoc)
        requires
            db.has_function(self),
        ensures
            loc.id == db.functions()[self.0 as int],
    {
        FunctionLoc { id: db.functions.lookup(self.0) }
    }
}

impl StructLoc {
    /// The identity of the struct at this location: the one it has, or a new
    /// one if it is seen for the first time.
    pub fn intern(self, db: &mut DefDatabase) -> (id: StructId)
        requires
            old(db).wf(),
            old(db).has_struct_item(self.id),
        ensures
            final(db).wf(),
            final(db).files() == old(db).files(),
            final(db).functions() == old(db).functions(),
            final(db).type_aliases() == old(db).type_aliases(),
            (final(db).structs(), id.0 as int) == intern_spec(old(db).structs(), self.id),
    {
        let id = db.structs.intern(self.id);
        proof {
            DefDatabase::lemma_items_kept(*old(db), *db);
        }
        StructId(id)
    }
}

impl StructId {
    /// The location that this identity stands for.
    pub fn lookup(self, db: &DefDatabase) -> (loc: StructLoc)
        requires
            db.has_struct(self),
        ensures
            loc.id == db.structs()[self.0 as int],
    {
        StructLoc { id: db.structs.lookup(self.0) }
    }
}

impl TypeAliasLoc {
    /// The identity of the type alias at this location: the one it has, or a
    /// new one if it is seen for the first time.
    pub fn intern(self, db: &mut DefDatabase) -> (id: TypeAliasId)
        requires
            old(db).wf(),
            old(db).has_type_alias_item(self.id),
        ensures
            final(db).wf(),
            final(db).files() == old(db).files(),
            final(db).functions() == old(db).functions(),
            final(db).structs() == old(db).structs(),
            (final(db).type_aliases(), id.0 as int) == intern_spec(
                old(db).type_aliases(),
                self.id,
            ),
    {
        let id = db.type_aliases.intern(self.id);
        proof {
            DefDatabase::lemma_items_kept(*old(db), *db);
        }
        TypeAliasId(id)
    }
}

impl TypeAliasId {
    /// The location that this identity stands for.
    pub fn lookup(self, db: &DefDatabase) -> (loc: TypeAliasLoc)
        requires
            db.has_type_alias(self),
        ensures
            loc.id == db.type_aliases()[self.0 as int],
    {
        TypeAliasLoc { id: db.type_aliases.lookup(self.0) }
    }
}

/// What the phases after this one found out about one function.
#[derive(Debug, PartialEq, Eq)]
pub struct FunctionAnalysis {
    pub body: Body,
    pub body_source_map: BodySourceMap,
    pub inference: InferenceResult,
    /// What the validation of the body found.
    pub validation: Vec<Finding>,
}

impl FunctionAnalysis {
    /// Nothing was found, because nobody has looked yet.
    pub open spec fn is_blank(&self) -> bool {
        &&& self.body.findings@.len() == 0
        &&& self.body_source_map.exprs@.len() == 0
        &&& self.inference.findings@.len() == 0
        &&& self.validation@.len() == 0
    }

    /// An analysis without findings.
    pub fn blank() -> (analysis: FunctionAnalysis)
        ensures
            analysis.is_blank(),
    {
        FunctionAnalysis {
            body: Body { findings: Vec::new() },
            body_source_map: BodySourceMap { exprs: Vec::new() },
            inference: InferenceResult { findings: Vec::new() },
            validation: Vec::new(),
        }
    }
}

impl LowerBatchResult {
    /// No type is known yet, and nothing was found.
    pub open spec fn is_blank(&self, slots: nat) -> bool {
        &&& self.types@ == Seq::new(slots, |i: int| Ty::Unknown)
        &&& self.diagnostics@.len() == 0
    }

    /// A result for `slots` slots in which no type is known.
    pub fn blank(slots: usize) -> (result: LowerBatchResult)
        ensures
            result.is_blank(slots as nat),
    {
        let mut types: Vec<Ty> = Vec::new();
        let mut i: usize = 0;
        while i < slots
            invariant
                0 <= i <= slots,
                types@ == Seq::new(i as nat, |k: int| Ty::Unknown),
            decreases slots - i,
        {
            types.push(Ty::Unknown);
            i += 1;
        }
        LowerBatchResult { types, diagnostics: Vec::new() }
    }
}

/// Everything that is known about the program: the definitions, the module
/// data of each file, and what the later phases have handed in.
pub struct HirDatabase {
    defs: DefDatabase,
    modules: Vec<ModuleData>,
    function_analyses: Vec<FunctionAnalysis>,
    struct_lowerings: Vec<LowerBatchResult>,
    type_alias_lowerings: Vec<LowerBatchResult>,
}

impl HirDatabase {
    /// The definitions.
    pub closed spec fn defs(&self) -> DefDatabase {
        self.defs
    }

    /// The module data, by file.
    pub closed spec fn modules(&self) -> Seq<ModuleData> {
        self.modules@
    }

    /// What is known about each function, by identity.
    pub closed spec fn function_analyses(&self) -> Seq<FunctionAnalysis> {
        self.function_analyses@
    }

    /// The lowered types of each struct, by identity.
    pub closed spec fn struct_lowerings(&self) -> Seq<LowerBatchResult> {
        self.struct_lowerings@
    }

    /// The lowered type of each type alias, by identity.
    pub closed spec fn type_alias_lowerings(&self) -> Seq<LowerBatchResult> {
        self.type_alias_lowerings@
    }

    /// The definitions are in order; each file has its module data, and each
    /// of its items an identity; each definition has its record, and the
    /// lowered types of a definition match its slots.
    pub open spec fn wf(&self) -> bool {
        &&& self.defs().wf()
        &&& self.modules().len() == self.defs().files().len()
        &&& forall|f: int|
            0 <= f < self.modules().len() ==> (#[trigger] self.modules()[f])@ == module_data_of(
                self.defs(),
                FileId(f as u32),
            )
        &&& forall|f: int, i: int|
            0 <= f < self.defs().files().len() && 0 <= i < self.defs().files()[f].top_level@.len()
                ==> item_interned(
                self.defs(),
                FileId(f as u32),
                #[trigger] self.defs().files()[f].top_level@[i],
            )
        &&& self.function_analyses().len() == self.defs().functions().len()
        &&& self.struct_lowerings().len() == self.defs().structs().len()
        &&& self.type_alias_lowerings().len() == self.defs().type_aliases().len()
        &&& forall|s: int|
            0 <= s < self.struct_lowerings().len() ==> (#[trigger] self.struct_lowerings()[s]).fits(
                struct_data_of(self.defs().struct_item(StructId(s as usize))).sources,
            )
        &&& forall|t: int|
            0 <= t < self.type_alias_lowerings().len() ==> (
            #[trigger] self.type_alias_lowerings()[t]).fits(
                type_alias_data_of(self.defs().type_alias_item(TypeAliasId(t as usize))).sources,
            )
    }

    /// A database without files.
    pub fn new() -> (db: HirDatabase)
        ensures
            db.wf(),
            db.defs().files().len() == 0,
            db.defs().functions().len() == 0,
            db.defs().structs().len() == 0,
            db.defs().type_aliases().len() == 0,
    {
        HirDatabase {
            defs: DefDatabase::new(),
            modules: Vec::new(),
            function_analyses: Vec::new(),
            struct_lowerings: Vec::new(),
            type_alias_lowerings: Vec::new(),
        }
    }

    /// The definitions alone.
    pub fn upcast(&self) -> (defs: &DefDatabase)
        ensures
            *defs == self.defs(),
    {
        &self.defs
    }

    /// Takes in the item tree of a new file. Every item of the file gets its
    /// identity, the module data of the file is worked out, and each new
    /// definition gets a blank record. What was known before stays as it was.
    pub fn add_file(&mut self, tree: ItemTree) -> (file_id: FileId)
        requires
            old(self).wf(),
            tree.wf(),
            old(self).defs().files().len() <= u32::MAX,
        ensures
            final(self).wf(),
            file_id.0 == old(self).defs().files().len(),
            final(self).defs().files() == old(self).defs().files().push(tree),
            final(self).defs().functions() == intern_each(
                old(self).defs().functions(),
                function_locs(tree, file_id),
                tree.top_level@.len() as int,
            ),
            final(self).defs().structs() == intern_each(
                old(self).defs().structs(),
                struct_locs(tree, file_id),
                tree.top_level@.len() as int,
            ),
            final(self).defs().type_aliases() == intern_each(
                old(self).defs().type_aliases(),
                type_alias_locs(tree, file_id),
                tree.top_level@.len() as int,
            ),
            forall|i: int|
                0 <= i < old(self).defs().functions().len() ==> #[trigger] final(self).defs().function_item(FunctionId(i as usize)) == old(self).defs().function_item(
                    FunctionId(i as usize),
                ),
            forall|i: int|
                0 <= i < old(self).defs().structs().len() ==> #[trigger] final(self).defs().struct_item(StructId(i as usize)) == old(self).defs().struct_item(
                    StructId(i as usize),
                ),
            forall|i: int|
                0 <= i < old(self).defs().type_aliases().len() ==> #[trigger] final(self).defs().type_alias_item(TypeAliasId(i as usize)) == old(self).defs().type_alias_item(TypeAliasId(i as usize)),
            old(self).function_analyses().is_prefix_of(final(self).function_analyses()),
            old(self).struct_lowerings().is_prefix_of(final(self).struct_lowerings()),
            old(self).type_alias_lowerings().is_prefix_of(final(self).type_alias_lowerings()),
            forall|i: int|
                old(self).function_analyses().len() <= i < final(self).function_analyses().len()
                    ==> (#[trigger] final(self).function_analyses()[i]).is_blank(),
            forall|i: int|
                old(self).struct_lowerings().len() <= i < final(self).struct_lowerings().len() ==> (
                #[trigger] final(self).struct_lowerings()[i]).is_blank(
                    final(self).defs().struct_item(StructId(i as usize)).fields@.len(),
                ),
            forall|i: int|
                old(self).type_alias_lowerings().len() <= i
                    < final(self).type_alias_lowerings().len() ==> (
                #[trigger] final(self).type_alias_lowerings()[i]).is_blank(1),
    {
        let ghost before = self.defs;
        proof {
            before.lemma_no_duplicates();
        }
        let file_id = self.defs.add_file(tree);
        let data = ModuleData::module_data_query(&mut self.defs, file_id);
        let ghost after = self.defs;
        proof {
            let n = tree.top_level@.len() as int;
            lemma_intern_each_extends(before.functions(), function_locs(tree, file_id), n);
            lemma_intern_each_extends(before.structs(), struct_locs(tree, file_id), n);
            lemma_intern_each_extends(before.type_aliases(), type_alias_locs(tree, file_id), n);
        }
        self.modules.push(data);
        fill_blank_analyses(&mut self.function_analyses, self.defs.function_count());
        fill_blank_struct_lowerings(&mut self.struct_lowerings, &self.defs);
        fill_blank_lowerings(&mut self.type_alias_lowerings, self.defs.type_alias_count(), 1);
        proof {
            assert forall|f: int| 0 <= f < self.modules().len() implies (
            #[trigger] self.modules()[f])@ == module_data_of(after, FileId(f as u32)) by {
                if f < before.files().len() {
                    lemma_file_kept(before, after, f, 0);
                }
            }
            assert forall|s: int| 0 <= s < self.struct_lowerings().len() implies (
            #[trigger] self.struct_lowerings()[s]).fits(
                struct_data_of(after.struct_item(StructId(s as usize))).sources,
            ) by {
                if s < old(self).struct_lowerings().len() {
                    assert(self.struct_lowerings()[s] == old(self).struct_lowerings()[s]);
                }
            }
            assert forall|t: int| 0 <= t < self.type_alias_lowerings().len() implies (
            #[trigger] self.type_alias_lowerings()[t]).fits(
                type_alias_data_of(after.type_alias_item(TypeAliasId(t as usize))).sources,
            ) by {
                if t < old(self).type_alias_lowerings().len() {
                    assert(self.type_alias_lowerings()[t] == old(self).type_alias_lowerings()[t]);
                }
            }
        }
        file_id
    }
}

impl HirDatabase {
    /// Whether `function` is a function of this database.
    pub open spec fn has_function(&self, function: Function) -> bool {
        self.defs().has_function(function.id)
    }

    /// Whether `strukt` is a struct of this database.
    pub open spec fn has_struct(&self, strukt: Struct) -> bool {
        self.defs().has_struct(strukt.id)
    }

    /// Whether `alias` is a type alias of this database.
    pub open spec fn has_type_alias(&self, alias: TypeAlias) -> bool {
        self.defs().has_type_alias(alias.id)
    }

    /// What is known about a function.
    pub open spec fn analysis_of(&self, function: Function) -> FunctionAnalysis {
        self.function_analyses()[function.id.0 as int]
    }

    /// The lowered types of a struct.
    pub open spec fn struct_lowering_of(&self, strukt: Struct) -> LowerBatchResult {
        self.struct_lowerings()[strukt.id.0 as int]
    }

    /// The lowered type of a type alias.
    pub open spec fn type_alias_lowering_of(&self, alias: TypeAlias) -> LowerBatchResult {
        self.type_alias_lowerings()[alias.id.0 as int]
    }

    /// The item tree of a file.
    pub fn item_tree(&self, file_id: FileId) -> (tree: &ItemTree)
        requires
            self.defs().has_file(file_id),
        ensures
            *tree == self.defs().tree(file_id),
    {
        self.defs.item_tree(file_id)
    }

    /// The module data of a file, as it was worked out when the file came in.
    pub fn module_data(&self, file_id: FileId) -> (data: &ModuleData)
        requires
            self.wf(),
            self.defs().has_file(file_id),
        ensures
            data@ == module_data_of(self.defs(), file_id),
    {
        &self.modules[file_id.0 as usize]
    }

    /// The data of a function.
    pub fn fn_data(&self, id: FunctionId) -> (data: FunctionData)
        requires
            self.wf(),
            self.defs().has_function(id),
        ensures
            data@ == function_data_of(self.defs().function_item(id)),
    {
        FunctionData::fn_data_query(&self.defs, id)
    }

    /// The data of a struct.
    pub fn struct_data(&self, id: StructId) -> (data: StructData)
        requires
            self.wf(),
            self.defs().has_struct(id),
        ensures
            data@ == struct_data_of(self.defs().struct_item(id)),
    {
        StructData::struct_data_query(&self.defs, id)
    }

    /// The data of a type alias.
    pub fn type_alias_data(&self, id: TypeAliasId) -> (data: TypeAliasData)
        requires
            self.wf(),
            self.defs().has_type_alias(id),
        ensures
            data@ == type_alias_data_of(self.defs().type_alias_item(id)),
    {
        TypeAliasData::type_alias_data_query(&self.defs, id)
    }

    /// What building the body of a definition found.
    pub fn body(&self, def: DefWithBody) -> (body: &Body)
        requires
            self.wf(),
            self.has_function(def.function()),
        ensures
            *body == self.analysis_of(def.function()).body,
    {
        match def {
            DefWithBody::Function(f) => &self.function_analyses[f.id.0].body,
        }
    }

    /// The body of a definition and the places of its expressions.
    pub fn body_with_source_map(&self, def: DefWithBody) -> (pair: (&Body, &BodySourceMap))
        requires
            self.wf(),
            self.has_function(def.function()),
        ensures
            *pair.0 == self.analysis_of(def.function()).body,
            *pair.1 == self.analysis_of(def.function()).body_source_map,
    {
        match def {
            DefWithBody::Function(f) => {
                let analysis = &self.function_analyses[f.id.0];
                (&analysis.body, &analysis.body_source_map)
            },
        }
    }

    /// What type inference found in the body of a definition.
    pub fn infer(&self, def: DefWithBody) -> (result: &InferenceResult)
        requires
            self.wf(),
            self.has_function(def.function()),
        ensures
            *result == self.analysis_of(def.function()).inference,
    {
        match def {
            DefWithBody::Function(f) => &self.function_analyses[f.id.0].inference,
        }
    }

    /// What the validation of the body of a function found.
    pub fn body_validation(&self, function: Function) -> (findings: &Vec<Finding>)
        requires
            self.wf(),
            self.has_function(function),
        ensures
            *findings == self.analysis_of(function).validation,
    {
        &self.function_analyses[function.id.0].validation
    }

    /// The lowered types of the fields of a struct.
    pub fn lower_struct(&self, strukt: Struct) -> (result: &LowerBatchResult)
        requires
            self.wf(),
            self.has_struct(strukt),
        ensures
            *result == self.struct_lowering_of(strukt),
            result.fits(struct_data_of(self.defs().struct_item(strukt.id)).sources),
    {
        &self.struct_lowerings[strukt.id.0]
    }

    /// The lowered type that a type alias stands for.
    pub fn lower_type_alias(&self, alias: TypeAlias) -> (result: &LowerBatchResult)
        requires
            self.wf(),
            self.has_type_alias(alias),
        ensures
            *result == self.type_alias_lowering_of(alias),
            result.fits(type_alias_data_of(self.defs().type_alias_item(alias.id)).sources),
    {
        &self.type_alias_lowerings[alias.id.0]
    }

    /// Takes in what the later phases found out about a function.
    pub fn set_function_analysis(&mut self, function: Function, analysis: FunctionAnalysis)
        requires
            old(self).wf(),
            old(self).has_function(function),
        ensures
            final(self).wf(),
            final(self).defs() == old(self).defs(),
            final(self).function_analyses() == old(self).function_analyses().update(
                function.id.0 as int,
                analysis,
            ),
            final(self).struct_lowerings() == old(self).struct_lowerings(),
            final(self).type_alias_lowerings() == old(self).type_alias_lowerings(),
    {
        self.function_analyses.set(function.id.0, analysis);
    }

    /// Takes in the lowered types of a struct: one for each field, in order.
    pub fn set_struct_lowering(&mut self, strukt: Struct, result: LowerBatchResult)
        requires
            old(self).wf(),
            old(self).has_struct(strukt),
            result.fits(struct_data_of(old(self).defs().struct_item(strukt.id)).sources),
        ensures
            final(self).wf(),
            final(self).defs() == old(self).defs(),
            final(self).function_analyses() == old(self).function_analyses(),
            final(self).struct_lowerings() == old(self).struct_lowerings().update(
                strukt.id.0 as int,
                result,
            ),
            final(self).type_alias_lowerings() == old(self).type_alias_lowerings(),
    {
        self.struct_lowerings.set(strukt.id.0, result);
    }

    /// Takes in the lowered type that a type alias stands for.
    pub fn set_type_alias_lowering(&mut self, alias: TypeAlias, result: LowerBatchResult)
        requires
            old(self).wf(),
            old(self).has_type_alias(alias),
            result.fits(type_alias_data_of(old(self).defs().type_alias_item(alias.id)).sources),
        ensures
            final(self).wf(),
            final(self).defs() == old(self).defs(),
            final(self).function_analyses() == old(self).function_analyses(),
            final(self).struct_lowerings() == old(self).struct_lowerings(),
            final(self).type_alias_lowerings() == old(self).type_alias_lowerings().update(
                alias.id.0 as int,
                result,
            ),
    {
        self.type_alias_lowerings.set(alias.id.0, result);
    }
}

/// When files and identities are only added, a definition that had an identity
/// is made from the item it was made from.
pub proof fn lemma_grown(before: DefDatabase, after: DefDatabase)
    requires
        before.wf(),
        before.files().is_prefix_of(after.files()),
        before.functions().is_prefix_of(after.functions()),
        before.structs().is_prefix_of(after.structs()),
        before.type_aliases().is_prefix_of(after.type_aliases()),
    ensures
        forall|i: int|
            0 <= i < before.functions().len() ==> #[trigger] after.function_item(
                FunctionId(i as usize),
            ) == before.function_item(FunctionId(i as usize)),
        forall|i: int|
            0 <= i < before.structs().len() ==> #[trigger] after.struct_item(StructId(i as usize))
                == before.struct_item(StructId(i as usize)),
        forall|i: int|
            0 <= i < before.type_aliases().len() ==> #[trigger] after.type_alias_item(
                TypeAliasId(i as usize),
            ) == before.type_alias_item(TypeAliasId(i as usize)),
{
}

/// A file whose items all had their identities keeps its module data, and
/// its items their identities, when files and identities are added.
proof fn lemma_file_kept(before: DefDatabase, after: DefDatabase, f: int, i: int)
    requires
        0 <= f < before.files().len(),
        before.files().len() <= u32::MAX as nat + 1,
        before.files().is_prefix_of(after.files()),
        after.functions().no_duplicates(),
        after.structs().no_duplicates(),
        after.type_aliases().no_duplicates(),
        before.functions().is_prefix_of(after.functions()),
        before.structs().is_prefix_of(after.structs()),
        before.type_aliases().is_prefix_of(after.type_aliases()),
        forall|k: int|
            0 <= k < before.files()[f].top_level@.len() ==> item_interned(
                before,
                FileId(f as u32),
                #[trigger] before.files()[f].top_level@[k],
            ),
    ensures
        after.files()[f] == before.files()[f],
        module_data_of(after, FileId(f as u32)) == module_data_of(before, FileId(f as u32)),
        0 <= i < after.files()[f].top_level@.len() ==> item_interned(
            after,
            FileId(f as u32),
            after.files()[f].top_level@[i],
        ),
{
    let file_id = FileId(f as u32);
    lemma_module_data_kept(before, after, file_id);
}

/// Adds blank analyses until there are `count`.
fn fill_blank_analyses(analyses: &mut Vec<FunctionAnalysis>, count: usize)
    requires
        old(analyses)@.len() <= count,
    ensures
        final(analyses)@.len() == count,
        old(analyses)@.is_prefix_of(final(analyses)@),
        forall|i: int|
            old(analyses)@.len() <= i < count ==> (#[trigger] final(analyses)@[i]).is_blank(),
{
    while analyses.len() < count
        invariant
            analyses@.len() <= count,
            old(analyses)@.is_prefix_of(analyses@),
            forall|i: int|
                old(analyses)@.len() <= i < analyses@.len() ==> (#[trigger] analyses@[i]).is_blank(),
        decreases count - analyses@.len(),
    {
        analyses.push(FunctionAnalysis::blank());
    }
}

/// Adds blank results of `slots` slots until there are `count`.
fn fill_blank_lowerings(lowerings: &mut Vec<LowerBatchResult>, count: usize, slots: usize)
    requires
        old(lowerings)@.len() <= count,
    ensures
        final(lowerings)@.len() == count,
        old(lowerings)@.is_prefix_of(final(lowerings)@),
        forall|i: int|
            old(lowerings)@.len() <= i < count ==> (#[trigger] final(lowerings)@[i]).is_blank(
                slots as nat,
            ),
{
    while lowerings.len() < count
        invariant
            lowerings@.len() <= count,
            old(lowerings)@.is_prefix_of(lowerings@),
            forall|i: int|
                old(lowerings)@.len() <= i < lowerings@.len() ==> (#[trigger] lowerings@[i]).is_blank(
                    slots as nat,
                ),
        decreases count - lowerings@.len(),
    {
        lowerings.push(LowerBatchResult::blank(slots));
    }
}

/// Adds a blank result for each struct that has none, with a slot for each of
/// its fields.
fn fill_blank_struct_lowerings(lowerings: &mut Vec<LowerBatchResult>, defs: &DefDatabase)
    requires
        defs.wf(),
        old(lowerings)@.len() <= defs.structs().len(),
    ensures
        final(lowerings)@.len() == defs.structs().len(),
        old(lowerings)@.is_prefix_of(final(lowerings)@),
        forall|i: int|
            old(lowerings)@.len() <= i < defs.structs().len() ==> (
            #[trigger] final(lowerings)@[i]).is_blank(
                defs.struct_item(StructId(i as usize)).fields@.len(),
            ),
{
    while lowerings.len() < defs.struct_count()
        invariant
            defs.wf(),
            lowerings@.len() <= defs.structs().len(),
            old(lowerings)@.is_prefix_of(lowerings@),
            forall|i: int|
                old(lowerings)@.len() <= i < lowerings@.len() ==> (#[trigger] lowerings@[i]).is_blank(
                    defs.struct_item(StructId(i as usize)).fields@.len(),
                ),
        decreases defs.structs().len() - lowerings@.len(),
    {
        let id = StructId(lowerings.len());
        let fields = defs.struct_item_ref(id).fields.len();
        lowerings.push(LowerBatchResult::blank(fields));
    }
}

} // verus!
