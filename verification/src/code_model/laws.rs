//! What holds of the module data of every file.

use crate::adt::{struct_data_of, type_alias_data_of, StructData, TypeAliasData};
use crate::code_model::function::{function_data_of, FunctionData};
use crate::code_model::module::{
    declaration_diagnostics, declarations_diagnostics, declarations_of, def_of_item,
    duplicate_names, duplicate_of, first_index, function_locs, is_first, item_interned,
    lemma_first_index, lemma_taken_has_first, module_data_of, module_diagnostics, name_taken,
    occurs_before, struct_locs, structural_reports, type_alias_locs, Module,
    ModuleDefinitionDiagnostic,
};
use crate::code_model::type_alias::type_alias_diagnostics;
use crate::code_model::{ModuleDef, TypeAlias};
use crate::db::{DefDatabase, HirDatabase};
use crate::diagnostics::Diagnostic;
use crate::ids::{
    intern_each, lemma_intern_each_known, FileId, FunctionId, ItemTreeId, StructId, TypeAliasId,
};
use crate::item_tree::{ItemTree, ModItem};
use vstd::prelude::*;

verus! {

/// The number of items among the first `n` whose name was taken.
pub open spec fn taken_count(names: Seq<Seq<char>>, n: int) -> nat
    decreases n,
{
    if n <= 0 {
        0
    } else if name_taken(names, n - 1) {
        taken_count(names, n - 1) + 1
    } else {
        taken_count(names, n - 1)
    }
}

/// There is one finding for each item whose name was taken, and no other.
pub proof fn lemma_one_finding_per_taken_name(tree: ItemTree, n: int)
    ensures
        duplicate_names(tree, n).len() == taken_count(tree.names(), n),
    decreases n,
{
    if n > 0 {
        lemma_one_finding_per_taken_name(tree, n - 1);
    }
}

/// Items whose names are free add no finding.
pub proof fn lemma_free_names_add_nothing(tree: ItemTree, from: int, to: int)
    requires
        0 <= from <= to,
        forall|i: int| from <= i < to ==> !name_taken(tree.names(), i),
    ensures
        duplicate_names(tree, to) == duplicate_names(tree, from),
    decreases to - from,
{
    if from < to {
        lemma_free_names_add_nothing(tree, from, to - 1);
    }
}

/// Whether no two of the first `n` names are the same.
pub open spec fn names_distinct(names: Seq<Seq<char>>, n: int) -> bool {
    forall|i: int, j: int| 0 <= i < j < n ==> #[trigger] names[i] != #[trigger] names[j]
}

/// A file without name collisions has a declaration for each item, in the
/// order of the items, and no finding about its names: what the module
/// reports is what its declarations report.
pub proof fn lemma_no_collisions(db: HirDatabase, module: Module)
    requires
        db.wf(),
        db.defs().has_file(module.file_id),
        names_distinct(
            db.defs().tree(module.file_id).names(),
            db.defs().tree(module.file_id).top_level@.len() as int,
        ),
    ensures
        declarations_of(db.defs(), module.file_id).len() == db.defs().tree(
            module.file_id,
        ).top_level@.len(),
        forall|i: int|
            0 <= i < db.defs().tree(module.file_id).top_level@.len() ==> #[trigger] declarations_of(
                db.defs(),
                module.file_id,
            )[i] == def_of_item(
                db.defs(),
                module.file_id,
                db.defs().tree(module.file_id).top_level@[i],
            ),
        module_data_of(db.defs(), module.file_id).diagnostics
            == Seq::<ModuleDefinitionDiagnostic>::empty(),
        module_diagnostics(db, module) == declarations_diagnostics(
            db,
            declarations_of(db.defs(), module.file_id),
            db.defs().tree(module.file_id).top_level@.len() as int,
        ),
{
    let tree = db.defs().tree(module.file_id);
    let names = tree.names();
    let n = tree.top_level@.len() as int;
    assert forall|i: int| 0 <= i < n implies !name_taken(names, i) by {
        if name_taken(names, i) {
            let j = choose|j: int| 0 <= j < i && j < names.len() && #[trigger] names[j] == names[i];
        }
    }
    lemma_free_names_add_nothing(tree, 0, n);
}

/// The identity of a declaration stands for the place of its item: looking
/// the identity up gives the file and the index of the item back.
pub proof fn lemma_declaration_stands_for_item(db: HirDatabase, file_id: FileId, i: int)
    requires
        db.wf(),
        db.defs().has_file(file_id),
        0 <= i < db.defs().tree(file_id).top_level@.len(),
    ensures
        match db.defs().tree(file_id).top_level@[i] {
            ModItem::Function(value) => {
                &&& declarations_of(db.defs(), file_id)[i] is Function
                &&& db.defs().has_function(declarations_of(db.defs(), file_id)[i]->Function_0.id)
                &&& db.defs().functions()[declarations_of(
                    db.defs(),
                    file_id,
                )[i]->Function_0.id.0 as int] == (ItemTreeId { file_id, value })
            },
            ModItem::Struct(value) => {
                &&& declarations_of(db.defs(), file_id)[i] is Struct
                &&& db.defs().has_struct(declarations_of(db.defs(), file_id)[i]->Struct_0.id)
                &&& db.defs().structs()[declarations_of(db.defs(), file_id)[i]->Struct_0.id.0 as int]
                    == (ItemTreeId { file_id, value })
            },
            ModItem::TypeAlias(value) => {
                &&& declarations_of(db.defs(), file_id)[i] is TypeAlias
                &&& db.defs().has_type_alias(declarations_of(db.defs(), file_id)[i]->TypeAlias_0.id)
                &&& db.defs().type_aliases()[declarations_of(
                    db.defs(),
                    file_id,
                )[i]->TypeAlias_0.id.0 as int] == (ItemTreeId { file_id, value })
            },
        },
{
    db.defs().lemma_tables_fit();
}

/// Two items of a file that are not the same item never have the same
/// identity.
pub proof fn lemma_declarations_are_distinct(db: HirDatabase, file_id: FileId, i: int, j: int)
    requires
        db.wf(),
        db.defs().has_file(file_id),
        0 <= i < db.defs().tree(file_id).top_level@.len(),
        0 <= j < db.defs().tree(file_id).top_level@.len(),
        db.defs().tree(file_id).top_level@[i] != db.defs().tree(file_id).top_level@[j],
    ensures
        declarations_of(db.defs(), file_id)[i] != declarations_of(db.defs(), file_id)[j],
{
    lemma_declaration_stands_for_item(db, file_id, i);
    lemma_declaration_stands_for_item(db, file_id, j);
}

/// The finding about an item whose name was taken cites the first item of
/// that name, which stands before it, however many items of that name stand
/// in between.
pub proof fn lemma_finding_cites_first(tree: ItemTree, i: int)
    requires
        0 <= i < tree.top_level@.len(),
        name_taken(tree.names(), i),
    ensures
        duplicate_of(tree, i) matches ModuleDefinitionDiagnostic::DuplicateName {
            definition,
            first_definition,
            ..
        } && {
            &&& definition == tree.top_level@[i]
            &&& first_definition == tree.top_level@[first_index(tree.names(), tree.names()[i])]
            &&& is_first(tree.names(), tree.names()[i], first_index(tree.names(), tree.names()[i]))
            &&& first_index(tree.names(), tree.names()[i]) < i
        },
{
    lemma_taken_has_first(tree.names(), tree.names()[i], i);
}

/// Where exactly two items share a name, there is exactly one finding: it is
/// about the second of them and cites the first.
pub proof fn lemma_second_bearer_is_reported(tree: ItemTree, a: int, b: int)
    requires
        0 <= a < b < tree.top_level@.len(),
        tree.names()[a] == tree.names()[b],
        forall|i: int, j: int|
            0 <= i < j < tree.top_level@.len() && #[trigger] tree.names()[i]
                == #[trigger] tree.names()[j] ==> i == a && j == b,
    ensures
        duplicate_names(tree, tree.top_level@.len() as int) == seq![
            ModuleDefinitionDiagnostic::DuplicateName {
                name: tree.item_name(tree.top_level@[b]),
                definition: tree.top_level@[b],
                first_definition: tree.top_level@[a],
            },
        ],
{
    let names = tree.names();
    let n = tree.top_level@.len() as int;
    assert forall|i: int| 0 <= i < n && i != b implies !name_taken(names, i) by {
        if name_taken(names, i) {
            let j = choose|j: int| 0 <= j < i && j < names.len() && #[trigger] names[j] == names[i];
        }
    }
    assert(is_first(names, names[b], a));
    lemma_first_index(names, names[b], a);
    lemma_free_names_add_nothing(tree, 0, b);
    lemma_free_names_add_nothing(tree, b + 1, n);
}

/// Where exactly three items share a name, there are exactly two findings,
/// about the second and about the third, and both cite the first.
pub proof fn lemma_third_bearer_cites_first(tree: ItemTree, a: int, b: int, c: int)
    requires
        0 <= a < b < c < tree.top_level@.len(),
        tree.names()[a] == tree.names()[b],
        tree.names()[b] == tree.names()[c],
        forall|i: int, j: int|
            0 <= i < j < tree.top_level@.len() && #[trigger] tree.names()[i]
                == #[trigger] tree.names()[j] ==> (i == a || i == b) && (j == b || j == c),
    ensures
        duplicate_names(tree, tree.top_level@.len() as int) == seq![
            ModuleDefinitionDiagnostic::DuplicateName {
                name: tree.item_name(tree.top_level@[b]),
                definition: tree.top_level@[b],
                first_definition: tree.top_level@[a],
            },
            ModuleDefinitionDiagnostic::DuplicateName {
                name: tree.item_name(tree.top_level@[c]),
                definition: tree.top_level@[c],
                first_definition: tree.top_level@[a],
            },
        ],
{
    let names = tree.names();
    let n = tree.top_level@.len() as int;
    assert forall|i: int| 0 <= i < n && i != b && i != c implies !name_taken(names, i) by {
        if name_taken(names, i) {
            let j = choose|j: int| 0 <= j < i && j < names.len() && #[trigger] names[j] == names[i];
        }
    }
    assert(occurs_before(names, names[c], c));
    assert(is_first(names, names[b], a));
    lemma_first_index(names, names[b], a);
    lemma_free_names_add_nothing(tree, 0, b);
    lemma_free_names_add_nothing(tree, b + 1, c);
    lemma_free_names_add_nothing(tree, c + 1, n);
}

/// Working out the module data of a file a second time gives no item a new
/// identity: every table stays as it is, so the data stays as it is.
pub proof fn lemma_known_file_adds_no_identity(db: HirDatabase, file_id: FileId)
    requires
        db.wf(),
        db.defs().has_file(file_id),
    ensures
        intern_each(
            db.defs().functions(),
            function_locs(db.defs().tree(file_id), file_id),
            db.defs().tree(file_id).top_level@.len() as int,
        ) == db.defs().functions(),
        intern_each(
            db.defs().structs(),
            struct_locs(db.defs().tree(file_id), file_id),
            db.defs().tree(file_id).top_level@.len() as int,
        ) == db.defs().structs(),
        intern_each(
            db.defs().type_aliases(),
            type_alias_locs(db.defs().tree(file_id), file_id),
            db.defs().tree(file_id).top_level@.len() as int,
        ) == db.defs().type_aliases(),
{
    let tree = db.defs().tree(file_id);
    let n = tree.top_level@.len() as int;
    assert forall|k: int| 0 <= k < n implies item_interned(
        db.defs(),
        file_id,
        #[trigger] tree.top_level@[k],
    ) by {}
    let functions = function_locs(tree, file_id);
    assert forall|k: int| 0 <= k < n && functions[k] is Some implies db.defs().functions().contains(
        #[trigger] functions[k]->0,
    ) by {}
    lemma_intern_each_known(db.defs().functions(), functions, n);
    let structs = struct_locs(tree, file_id);
    assert forall|k: int| 0 <= k < n && structs[k] is Some implies db.defs().structs().contains(
        #[trigger] structs[k]->0,
    ) by {}
    lemma_intern_each_known(db.defs().structs(), structs, n);
    let aliases = type_alias_locs(tree, file_id);
    assert forall|k: int|
        0 <= k < n && aliases[k] is Some implies db.defs().type_aliases().contains(
        #[trigger] aliases[k]->0,
    ) by {}
    lemma_intern_each_known(db.defs().type_aliases(), aliases, n);
}

/// The data of a function is a function of its item: asked twice for the
/// same function, with the item unchanged, the query gives equal data.
pub proof fn lemma_fn_data_is_deterministic(
    db: DefDatabase,
    later: DefDatabase,
    id: FunctionId,
    first: FunctionData,
    second: FunctionData,
)
    requires
        later.function_item(id) == db.function_item(id),
        first@ == function_data_of(db.function_item(id)),
        second@ == function_data_of(later.function_item(id)),
    ensures
        first@ == second@,
{
}

/// The data of a struct is a function of its item.
pub proof fn lemma_struct_data_is_deterministic(
    db: DefDatabase,
    later: DefDatabase,
    id: StructId,
    first: StructData,
    second: StructData,
)
    requires
        later.struct_item(id) == db.struct_item(id),
        first@ == struct_data_of(db.struct_item(id)),
        second@ == struct_data_of(later.struct_item(id)),
    ensures
        first@ == second@,
{
}

/// The data of a type alias is a function of its item.
pub proof fn lemma_type_alias_data_is_deterministic(
    db: DefDatabase,
    later: DefDatabase,
    id: TypeAliasId,
    first: TypeAliasData,
    second: TypeAliasData,
)
    requires
        later.type_alias_item(id) == db.type_alias_item(id),
        first@ == type_alias_data_of(db.type_alias_item(id)),
        second@ == type_alias_data_of(later.type_alias_item(id)),
    ensures
        first@ == second@,
{
}

/// How many diagnostics a module has reported when it comes to its
/// declaration `k`: the findings about the names, and what the declarations
/// before `k` report.
pub open spec fn reported_before(db: HirDatabase, module: Module, k: int) -> int {
    let tree = db.defs().tree(module.file_id);
    (structural_reports(
        tree,
        module.file_id,
        duplicate_names(tree, tree.top_level@.len() as int),
    ).len() + declarations_diagnostics(
        db,
        declarations_of(db.defs(), module.file_id),
        k,
    ).len()) as int
}

/// What the first declarations report stands at the head of what more of them
/// report.
pub proof fn lemma_reports_accumulate(db: HirDatabase, defs: Seq<ModuleDef>, k: int, n: int)
    requires
        0 <= k <= n,
    ensures
        declarations_diagnostics(db, defs, k).is_prefix_of(declarations_diagnostics(db, defs, n)),
    decreases n - k,
{
    if k < n {
        lemma_reports_accumulate(db, defs, k, n - 1);
    }
}

/// No declaration is passed over: whatever the declarations before it report,
/// what declaration `k` reports stands in what the module reports, whole and
/// in one piece, behind all that was reported before it.
pub proof fn lemma_every_declaration_reports(db: HirDatabase, module: Module, k: int)
    requires
        0 <= k < db.defs().tree(module.file_id).top_level@.len(),
    ensures
        0 <= reported_before(db, module, k),
        reported_before(db, module, k) + declaration_diagnostics(
            db,
            declarations_of(db.defs(), module.file_id)[k],
        ).len() <= module_diagnostics(db, module).len(),
        module_diagnostics(db, module).subrange(
            reported_before(db, module, k),
            reported_before(db, module, k) + declaration_diagnostics(
                db,
                declarations_of(db.defs(), module.file_id)[k],
            ).len(),
        ) == declaration_diagnostics(db, declarations_of(db.defs(), module.file_id)[k]),
{
    let tree = db.defs().tree(module.file_id);
    let n = tree.top_level@.len() as int;
    let defs = declarations_of(db.defs(), module.file_id);
    let structural = structural_reports(tree, module.file_id, duplicate_names(tree, n));
    let before = declarations_diagnostics(db, defs, k);
    let own = declaration_diagnostics(db, defs[k]);
    let through = declarations_diagnostics(db, defs, k + 1);
    let all = declarations_diagnostics(db, defs, n);
    lemma_reports_accumulate(db, defs, k + 1, n);
    let start = (structural.len() + before.len()) as int;
    let whole = structural + all;
    let part = whole.subrange(start, start + own.len());
    assert forall|i: int| 0 <= i < own.len() implies #[trigger] part[i] == own[i] by {
        assert(all[before.len() + i] == through[before.len() + i]);
    }
}

/// A type alias whose lowered target cannot be used as a type says so: the
/// last thing it reports is that its target is missing.
pub proof fn lemma_unusable_target_is_reported(db: HirDatabase, alias: TypeAlias)
    requires
        !db.type_alias_lowering_of(alias).types@[0].is_type_target(),
    ensures
        type_alias_diagnostics(db, alias).len() > 0,
        type_alias_diagnostics(db, alias).last() == (Diagnostic::MissingTargetType {
            file: db.defs().type_aliases()[alias.id.0 as int].file_id,
            type_alias_def: db.defs().type_alias_item(alias.id).ptr,
        }),
{
}

} // verus!
