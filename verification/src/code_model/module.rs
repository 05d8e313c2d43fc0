//! Modules: the declarations of a file and the findings about the file as a
//! whole.

use crate::code_model::function::function_diagnostics;
use crate::code_model::structure::struct_diagnostics;
use crate::code_model::type_alias::type_alias_diagnostics;
use crate::code_model::{Function, ModuleDef, Struct, TypeAlias};
use crate::db::{DefDatabase, HirDatabase};
use crate::diagnostics::{Diagnostic, DiagnosticSink};
use crate::resolve::{Resolver, Scope};
use mun_syntax::SyntaxNodePtr;
use crate::ids::{
    intern_each, lemma_intern_each_extends, lemma_intern_keeps, FileId,
    FunctionId, FunctionLoc, ItemTreeId, StructId, StructLoc, TypeAliasId, TypeAliasLoc,
};
use crate::item_tree::{ItemTree, ModItem};
use crate::name::Name;
use crate::name_index::{entries, index_get, index_insert, new_index};
use vstd::prelude::*;
use vstd::std_specs::convert::FromSpecImpl;

verus! {

/// A module: the definitions of one file.
#[derive(Debug, Clone, Copy, PartialEq, Eq, Hash, Structural)]
pub struct Module {
    pub file_id: FileId,
}

impl From<FileId> for Module {
    fn from(file_id: FileId) -> (module: Self) {
        Module { file_id }
    }
}

impl FromSpecImpl<FileId> for Module {
    open spec fn obeys_from_spec() -> bool {
        true
    }

    open spec fn from_spec(file_id: FileId) -> Self {
        Module { file_id }
    }
}

/// A finding about the definitions of a module taken together.
#[derive(Debug, PartialEq, Eq, Hash)]
pub enum ModuleDefinitionDiagnostic {
    /// `definition` has the name that `first_definition` had before it.
    DuplicateName { name: Name, definition: ModItem, first_definition: ModItem },
}

/// Whether `name` is the name of one of the first `n` items.
pub open spec fn occurs_before(names: Seq<Seq<char>>, name: Seq<char>, n: int) -> bool {
    exists|j: int| 0 <= j < n && j < names.len() && #[trigger] names[j] == name
}

/// Whether item `j` is the first that bears `name`.
pub open spec fn is_first(names: Seq<Seq<char>>, name: Seq<char>, j: int) -> bool {
    &&& 0 <= j < names.len()
    &&& names[j] == name
    &&& forall|k: int| 0 <= k < j ==> #[trigger] names[k] != name
}

/// The index of the first item that bears `name`.
pub open spec fn first_index(names: Seq<Seq<char>>, name: Seq<char>) -> int {
    choose|j: int| is_first(names, name, j)
}

/// Whether the name of item `i` was taken by an item before it.
pub open spec fn name_taken(names: Seq<Seq<char>>, i: int) -> bool {
    occurs_before(names, names[i], i)
}

/// The finding for item `i` of a tree, whose name was taken: it cites the item
/// itself and the first item of that name.
pub open spec fn duplicate_of(tree: ItemTree, i: int) -> ModuleDefinitionDiagnostic {
    ModuleDefinitionDiagnostic::DuplicateName {
        name: tree.item_name(tree.top_level@[i]),
        definition: tree.top_level@[i],
        first_definition: tree.top_level@[first_index(tree.names(), tree.names()[i])],
    }
}

/// The findings for the first `n` items of a tree: one for each item whose
/// name was taken, in the order of the items.
pub open spec fn duplicate_names(tree: ItemTree, n: int) -> Seq<ModuleDefinitionDiagnostic>
    decreases n,
{
    if n <= 0 {
        Seq::empty()
    } else {
        let before = duplicate_names(tree, n - 1);
        if name_taken(tree.names(), n - 1) {
            before.push(duplicate_of(tree, n - 1))
        } else {
            before
        }
    }
}

/// There is only one first item of a name.
pub proof fn lemma_first_index(names: Seq<Seq<char>>, name: Seq<char>, j: int)
    requires
        is_first(names, name, j),
    ensures
        first_index(names, name) == j,
{
    let chosen = first_index(names, name);
    assert(is_first(names, name, chosen));
}

/// The location of item `i` if it is a function.
pub open spec fn function_locs(tree: ItemTree, file_id: FileId) -> Seq<Option<ItemTreeId>> {
    Seq::new(
        tree.top_level@.len(),
        |i: int|
            match tree.top_level@[i] {
                ModItem::Function(value) => Some(ItemTreeId { file_id, value }),
                _ => None,
            },
    )
}

/// The location of item `i` if it is a struct.
pub open spec fn struct_locs(tree: ItemTree, file_id: FileId) -> Seq<Option<ItemTreeId>> {
    Seq::new(
        tree.top_level@.len(),
        |i: int|
            match tree.top_level@[i] {
                ModItem::Struct(value) => Some(ItemTreeId { file_id, value }),
                _ => None,
            },
    )
}

/// The location of item `i` if it is a type alias.
pub open spec fn type_alias_locs(tree: ItemTree, file_id: FileId) -> Seq<Option<ItemTreeId>> {
    Seq::new(
        tree.top_level@.len(),
        |i: int|
            match tree.top_level@[i] {
                ModItem::TypeAlias(value) => Some(ItemTreeId { file_id, value }),
                _ => None,
            },
    )
}

/// The definition that an item of a file is, under the identities of `db`.
pub open spec fn def_of_item(db: DefDatabase, file_id: FileId, item: ModItem) -> ModuleDef {
    match item {
        ModItem::Function(value) => ModuleDef::Function(
            Function {
                id: FunctionId(db.functions().index_of(ItemTreeId { file_id, value }) as usize),
            },
        ),
        ModItem::Struct(value) => ModuleDef::Struct(
            Struct { id: StructId(db.structs().index_of(ItemTreeId { file_id, value }) as usize) },
        ),
        ModItem::TypeAlias(value) => ModuleDef::TypeAlias(
            TypeAlias {
                id: TypeAliasId(db.type_aliases().index_of(ItemTreeId { file_id, value }) as usize),
            },
        ),
    }
}

/// Whether `db` has an identity for an item of a file.
pub open spec fn item_interned(db: DefDatabase, file_id: FileId, item: ModItem) -> bool {
    match item {
        ModItem::Function(value) => db.functions().contains(ItemTreeId { file_id, value }),
        ModItem::Struct(value) => db.structs().contains(ItemTreeId { file_id, value }),
        ModItem::TypeAlias(value) => db.type_aliases().contains(ItemTreeId { file_id, value }),
    }
}

/// The declarations of a file: one definition for each item, in the order of
/// the items.
pub open spec fn declarations_of(db: DefDatabase, file_id: FileId) -> Seq<ModuleDef> {
    Seq::new(
        db.tree(file_id).top_level@.len(),
        |i: int| def_of_item(db, file_id, db.tree(file_id).top_level@[i]),
    )
}

/// What [`ModuleData`] holds.
pub struct ModuleDataView {
    pub definitions: Seq<ModuleDef>,
    pub diagnostics: Seq<ModuleDefinitionDiagnostic>,
}

/// The module data of a file under the identities of `db`.
pub open spec fn module_data_of(db: DefDatabase, file_id: FileId) -> ModuleDataView {
    ModuleDataView {
        definitions: declarations_of(db, file_id),
        diagnostics: duplicate_names(db.tree(file_id), db.tree(file_id).top_level@.len() as int),
    }
}

/// The definitions of a file and the findings about their names.
#[derive(Debug, PartialEq, Eq, Hash)]
pub struct ModuleData {
    definitions: Vec<ModuleDef>,
    diagnostics: Vec<ModuleDefinitionDiagnostic>,
}

impl View for ModuleData {
    type V = ModuleDataView;

    closed spec fn view(&self) -> ModuleDataView {
        ModuleDataView { definitions: self.definitions@, diagnostics: self.diagnostics@ }
    }
}

impl ModuleData {
    /// Walks the items of a file in order. Each item gets its identity and
    /// becomes a declaration, whatever its name; an item whose name an earlier
    /// item has is reported, with the first item of that name.
    pub fn module_data_query(db: &mut DefDatabase, file_id: FileId) -> (data: ModuleData)
        requires
            old(db).wf(),
            old(db).has_file(file_id),
        ensures
            final(db).wf(),
            final(db).files() == old(db).files(),
            final(db).functions() == intern_each(
                old(db).functions(),
                function_locs(old(db).tree(file_id), file_id),
                old(db).tree(file_id).top_level@.len() as int,
            ),
            final(db).structs() == intern_each(
                old(db).structs(),
                struct_locs(old(db).tree(file_id), file_id),
                old(db).tree(file_id).top_level@.len() as int,
            ),
            final(db).type_aliases() == intern_each(
                old(db).type_aliases(),
                type_alias_locs(old(db).tree(file_id), file_id),
                old(db).tree(file_id).top_level@.len() as int,
            ),
            data@ == module_data_of(*final(db), file_id),
            forall|i: int|
                0 <= i < old(db).tree(file_id).top_level@.len() ==> item_interned(
                    *final(db),
                    file_id,
                    #[trigger] old(db).tree(file_id).top_level@[i],
                ),
    {
        let ghost tree = db.tree(file_id);
        let ghost names = tree.names();
        let ghost functions_before = db.functions();
        let ghost structs_before = db.structs();
        let ghost type_aliases_before = db.type_aliases();
        let mut data = ModuleData { definitions: Vec::new(), diagnostics: Vec::new() };
        let mut definition_by_name = new_index();
        let n = db.item_tree(file_id).item_count();
        let mut i: usize = 0;
        proof {
            db.lemma_no_duplicates();
        }
        while i < n
            invariant
                0 <= i <= n,
                n == tree.top_level@.len(),
                names == tree.names(),
                db.wf(),
                db.has_file(file_id),
                db.tree(file_id) == tree,
                db.files() == old(db).files(),
                functions_before.no_duplicates(),
                structs_before.no_duplicates(),
                type_aliases_before.no_duplicates(),
                db.functions() == intern_each(
                    functions_before,
                    function_locs(tree, file_id),
                    i as int,
                ),
                db.structs() == intern_each(structs_before, struct_locs(tree, file_id), i as int),
                db.type_aliases() == intern_each(
                    type_aliases_before,
                    type_alias_locs(tree, file_id),
                    i as int,
                ),
                data.definitions@.len() == i,
                forall|k: int|
                    0 <= k < i ==> item_interned(*db, file_id, #[trigger] tree.top_level@[k]),
                forall|k: int|
                    0 <= k < i ==> #[trigger] data.definitions@[k] == def_of_item(
                        *db,
                        file_id,
                        tree.top_level@[k],
                    ),
                data.diagnostics@ == duplicate_names(tree, i as int),
                forall|s: Seq<char>| #[trigger]
                    entries(definition_by_name).contains_key(s) <==> occurs_before(names, s, i as int),
                forall|s: Seq<char>| #[trigger]
                    entries(definition_by_name).contains_key(s) ==> {
                        &&& is_first(names, s, first_index(names, s))
                        &&& first_index(names, s) < i
                        &&& entries(definition_by_name)[s] == tree.top_level@[first_index(names, s)]
                    },
            decreases n - i,
        {
            let ghost db_before = *db;
            let item = db.item_tree(file_id).top_level[i];
            let name = db.item_tree(file_id).name_of(item).clone();
            match index_get(&definition_by_name, name.as_str()) {
                Some(prev_definition) => {
                    data.diagnostics.push(
                        ModuleDefinitionDiagnostic::DuplicateName {
                            name,
                            definition: item,
                            first_definition: prev_definition,
                        },
                    );
                },
                None => {
                    assert(is_first(names, names[i as int], i as int));
                    index_insert(&mut definition_by_name, name.to_string(), item);
                },
            }
            proof {
                lemma_intern_each_extends(functions_before, function_locs(tree, file_id), i as int);
                lemma_intern_each_extends(structs_before, struct_locs(tree, file_id), i as int);
                lemma_intern_each_extends(
                    type_aliases_before,
                    type_alias_locs(tree, file_id),
                    i as int,
                );
            }
            match item {
                ModItem::Function(value) => {
                    let loc = FunctionLoc { id: ItemTreeId::new(file_id, value) };
                    let id = loc.intern(db);
                    proof {
                        lemma_intern_keeps(db_before.functions(), loc.id);
                    }
                    data.definitions.push(ModuleDef::Function(Function { id }));
                },
                ModItem::Struct(value) => {
                    let loc = StructLoc { id: ItemTreeId::new(file_id, value) };
                    let id = loc.intern(db);
                    proof {
                        lemma_intern_keeps(db_before.structs(), loc.id);
                    }
                    data.definitions.push(ModuleDef::Struct(Struct { id }));
                },
                ModItem::TypeAlias(value) => {
                    let loc = TypeAliasLoc { id: ItemTreeId::new(file_id, value) };
                    let id = loc.intern(db);
                    proof {
                        lemma_intern_keeps(db_before.type_aliases(), loc.id);
                    }
                    data.definitions.push(ModuleDef::TypeAlias(TypeAlias { id }));
                },
            }
            i += 1;
        }
        assert(data@.definitions =~= declarations_of(*db, file_id));
        data
    }

    /// The definitions, in the order of the items.
    pub fn definitions(&self) -> (definitions: &[ModuleDef])
        ensures
            definitions@ == self@.definitions,
    {
        self.definitions.as_slice()
    }

    /// The findings, in the order in which they were made.
    pub fn diagnostics(&self) -> (diagnostics: &[ModuleDefinitionDiagnostic])
        ensures
            diagnostics@ == self@.diagnostics,
    {
        self.diagnostics.as_slice()
    }
}

/// When the tables only grow, an item that had an identity keeps it.
pub proof fn lemma_def_kept(before: DefDatabase, after: DefDatabase, file_id: FileId, item: ModItem)
    requires
        after.functions().no_duplicates(),
        after.structs().no_duplicates(),
        after.type_aliases().no_duplicates(),
        before.functions().is_prefix_of(after.functions()),
        before.structs().is_prefix_of(after.structs()),
        before.type_aliases().is_prefix_of(after.type_aliases()),
        item_interned(before, file_id, item),
    ensures
        item_interned(after, file_id, item),
        def_of_item(after, file_id, item) == def_of_item(before, file_id, item),
{
}

/// When the tables only grow and the file stays as it is, the module data of
/// a file whose items all have their identities stays as it is.
pub proof fn lemma_module_data_kept(before: DefDatabase, after: DefDatabase, file_id: FileId)
    requires
        after.tree(file_id) == before.tree(file_id),
        after.functions().no_duplicates(),
        after.structs().no_duplicates(),
        after.type_aliases().no_duplicates(),
        before.functions().is_prefix_of(after.functions()),
        before.structs().is_prefix_of(after.structs()),
        before.type_aliases().is_prefix_of(after.type_aliases()),
        forall|k: int|
            0 <= k < before.tree(file_id).top_level@.len() ==> item_interned(
                before,
                file_id,
                #[trigger] before.tree(file_id).top_level@[k],
            ),
    ensures
        module_data_of(after, file_id) == module_data_of(before, file_id),
        forall|k: int|
            0 <= k < after.tree(file_id).top_level@.len() ==> item_interned(
                after,
                file_id,
                #[trigger] after.tree(file_id).top_level@[k],
            ),
{
    assert(declarations_of(after, file_id) =~= declarations_of(before, file_id));
}

/// A name that was taken has a first bearer, and that one stands before.
pub proof fn lemma_taken_has_first(names: Seq<Seq<char>>, name: Seq<char>, n: int)
    requires
        occurs_before(names, name, n),
    ensures
        is_first(names, name, first_index(names, name)),
        first_index(names, name) < n,
    decreases n,
{
    let j = choose|j: int| 0 <= j < n && j < names.len() && #[trigger] names[j] == name;
    if occurs_before(names, name, j) {
        lemma_taken_has_first(names, name, j);
    } else {
        lemma_first_index(names, name, j);
    }
}

impl ModuleDefinitionDiagnostic {
    /// Whether the items that the finding cites are items of `tree`.
    pub open spec fn cites_items_of(&self, tree: ItemTree) -> bool {
        match *self {
            ModuleDefinitionDiagnostic::DuplicateName { definition, first_definition, .. } => {
                tree.has_item(definition) && tree.has_item(first_definition)
            },
        }
    }

    /// Reports the finding about the module `owner`: each item that it cites
    /// is given by its place in the source.
    pub fn add_to(&self, db: &DefDatabase, owner: Module, sink: &mut DiagnosticSink)
        requires
            db.has_file(owner.file_id),
            self.cites_items_of(db.tree(owner.file_id)),
        ensures
            final(sink)@ == old(sink)@.push(
                structural_report(db.tree(owner.file_id), owner.file_id, *self),
            ),
    {
        match self {
            ModuleDefinitionDiagnostic::DuplicateName { name, definition, first_definition } => {
                sink.push(
                    Diagnostic::DuplicateDefinition {
                        file: owner.file_id,
                        name: name.clone(),
                        definition: syntax_ptr_from_def(db, owner, *definition),
                        first_definition: syntax_ptr_from_def(db, owner, *first_definition),
                    },
                )
            },
        }
    }
}

/// The place in the source of an item of the module `owner`.
pub fn syntax_ptr_from_def(db: &DefDatabase, owner: Module, item: ModItem) -> (ptr: SyntaxNodePtr)
    requires
        db.has_file(owner.file_id),
        db.tree(owner.file_id).has_item(item),
    ensures
        ptr == db.tree(owner.file_id).item_ptr(item),
{
    let file_id = owner.file_id;
    let item_tree = db.item_tree(file_id);
    match item {
        ModItem::Function(id) => item_tree.functions[id].ptr.clone(),
        ModItem::Struct(id) => item_tree.structs[id].ptr.clone(),
        ModItem::TypeAlias(id) => item_tree.type_aliases[id].ptr.clone(),
    }
}

/// The diagnostic that reports a finding about the names of a file.
pub open spec fn structural_report(
    tree: ItemTree,
    file_id: FileId,
    finding: ModuleDefinitionDiagnostic,
) -> Diagnostic {
    match finding {
        ModuleDefinitionDiagnostic::DuplicateName { name, definition, first_definition } => {
            Diagnostic::DuplicateDefinition {
                file: file_id,
                name,
                definition: tree.item_ptr(definition),
                first_definition: tree.item_ptr(first_definition),
            }
        },
    }
}

/// The diagnostics that report the findings about the names of a file, in the
/// order of the findings.
pub open spec fn structural_reports(
    tree: ItemTree,
    file_id: FileId,
    findings: Seq<ModuleDefinitionDiagnostic>,
) -> Seq<Diagnostic> {
    Seq::new(findings.len(), |i: int| structural_report(tree, file_id, findings[i]))
}

/// Whether a definition is one of `db`.
pub open spec fn def_exists(db: DefDatabase, def: ModuleDef) -> bool {
    match def {
        ModuleDef::Function(f) => db.has_function(f.id),
        ModuleDef::Struct(s) => db.has_struct(s.id),
        ModuleDef::TypeAlias(t) => db.has_type_alias(t.id),
        ModuleDef::BuiltinType(_) => true,
    }
}

/// The diagnostics of one declaration. A function reports what building its
/// body found, then what inference found, then what validation found; a
/// struct what lowering found; a type alias what lowering found, then
/// whether it stands for a type. A builtin type has nothing to report.
pub open spec fn declaration_diagnostics(db: HirDatabase, def: ModuleDef) -> Seq<Diagnostic> {
    match def {
        ModuleDef::Function(f) => function_diagnostics(db, f),
        ModuleDef::Struct(s) => struct_diagnostics(db, s),
        ModuleDef::TypeAlias(t) => type_alias_diagnostics(db, t),
        ModuleDef::BuiltinType(_) => Seq::empty(),
    }
}

/// The diagnostics of the first `n` declarations, one declaration after the
/// other.
pub open spec fn declarations_diagnostics(db: HirDatabase, defs: Seq<ModuleDef>, n: int) -> Seq<
    Diagnostic,
>
    decreases n,
{
    if n <= 0 {
        Seq::empty()
    } else {
        declarations_diagnostics(db, defs, n - 1) + declaration_diagnostics(db, defs[n - 1])
    }
}

/// Everything that a module reports: first the findings about the names of
/// the file, then the diagnostics of each declaration in source order.
pub open spec fn module_diagnostics(db: HirDatabase, module: Module) -> Seq<Diagnostic> {
    let tree = db.defs().tree(module.file_id);
    structural_reports(
        tree,
        module.file_id,
        duplicate_names(tree, tree.top_level@.len() as int),
    ) + declarations_diagnostics(
        db,
        declarations_of(db.defs(), module.file_id),
        tree.top_level@.len() as int,
    )
}

/// Every finding about the names of a tree cites items of the tree.
pub proof fn lemma_duplicates_cite_items(tree: ItemTree, n: int, k: int)
    requires
        tree.wf(),
        0 <= n <= tree.top_level@.len(),
        0 <= k < duplicate_names(tree, n).len(),
    ensures
        duplicate_names(tree, n)[k].cites_items_of(tree),
    decreases n,
{
    if n > 0 {
        let before = duplicate_names(tree, n - 1);
        if k < before.len() {
            lemma_duplicates_cite_items(tree, n - 1, k);
        } else {
            let names = tree.names();
            lemma_taken_has_first(names, names[n - 1], n - 1);
        }
    }
}

/// Every declaration of a file is a definition of the database.
pub proof fn lemma_declarations_exist(db: DefDatabase, file_id: FileId, k: int)
    requires
        0 <= k < db.tree(file_id).top_level@.len(),
        item_interned(db, file_id, db.tree(file_id).top_level@[k]),
    ensures
        def_exists(db, declarations_of(db, file_id)[k]),
{
}

impl Module {
    pub fn file_id(self) -> (file_id: FileId)
        ensures
            file_id == self.file_id,
    {
        self.file_id
    }

    /// All the definitions declared in this module, in source order.
    pub fn declarations(self, db: &HirDatabase) -> (declarations: Vec<ModuleDef>)
        requires
            db.wf(),
            db.defs().has_file(self.file_id),
        ensures
            declarations@ == declarations_of(db.defs(), self.file_id),
    {
        let definitions = db.module_data(self.file_id).definitions();
        let mut declarations: Vec<ModuleDef> = Vec::new();
        let mut i: usize = 0;
        while i < definitions.len()
            invariant
                0 <= i <= definitions@.len(),
                declarations@ == definitions@.take(i as int),
            decreases definitions@.len() - i,
        {
            declarations.push(definitions[i]);
            i += 1;
        }
        declarations
    }

    /// The resolver for what stands in this module: the scope of the module
    /// and nothing else.
    pub fn resolver(self, db: &DefDatabase) -> (resolver: Resolver)
        ensures
            resolver@ == seq![Scope::ModuleScope(self.file_id)],
    {
        Resolver::default().push_module_scope(self.file_id)
    }

    /// Reports everything about this module into `sink`: the findings about
    /// the names of the file, then what each declaration has to report, in
    /// source order. Whatever one declaration reports, the next is still
    /// asked.
    pub fn diagnostics(self, db: &HirDatabase, sink: &mut DiagnosticSink)
        requires
            db.wf(),
            db.defs().has_file(self.file_id),
        ensures
            final(sink)@ == old(sink)@ + module_diagnostics(*db, self),
    {
        let ghost tree = db.defs().tree(self.file_id);
        let ghost n = tree.top_level@.len() as int;
        let ghost structural = structural_reports(tree, self.file_id, duplicate_names(tree, n));
        let findings = db.module_data(self.file_id).diagnostics();
        let mut i: usize = 0;
        while i < findings.len()
            invariant
                0 <= i <= findings@.len(),
                db.wf(),
                db.defs().has_file(self.file_id),
                tree == db.defs().tree(self.file_id),
                n == tree.top_level@.len(),
                findings@ == duplicate_names(tree, n),
                structural == structural_reports(tree, self.file_id, findings@),
                sink@ == old(sink)@ + structural.take(i as int),
            decreases findings@.len() - i,
        {
            proof {
                lemma_duplicates_cite_items(tree, n, i as int);
            }
            findings[i].add_to(db.upcast(), self, sink);
            i += 1;
        }
        let declarations = self.declarations(db);
        let mut k: usize = 0;
        while k < declarations.len()
            invariant
                0 <= k <= declarations@.len(),
                db.wf(),
                db.defs().has_file(self.file_id),
                tree == db.defs().tree(self.file_id),
                declarations@ == declarations_of(db.defs(), self.file_id),
                declarations@.len() == n,
                sink@ == old(sink)@ + structural + declarations_diagnostics(
                    *db,
                    declarations@,
                    k as int,
                ),
            decreases declarations@.len() - k,
        {
            match declarations[k] {
                ModuleDef::Function(f) => f.diagnostics(db, sink),
                ModuleDef::Struct(s) => s.diagnostics(db, sink),
                ModuleDef::TypeAlias(t) => t.diagnostics(db, sink),
                ModuleDef::BuiltinType(_) => (),
            }
            k += 1;
        }
    }
}

} // verus!
