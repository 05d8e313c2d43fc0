//! Structs and type aliases: what their definitions say.

use crate::db::DefDatabase;
use crate::ids::{StructId, TypeAliasId};
use crate::item_tree::{StructItem, TypeAliasItem};
use crate::name::Name;
use crate::type_ref::{
    slot_syntax, slot_type, LocalTypeRefId, TypeRef, TypeRefBuilder, TypeRefMap, TypeRefSourceMap,
};
use mun_syntax::SyntaxNodePtr;
use vstd::prelude::*;

verus! {

/// The number of a field among the fields of its struct.
#[derive(Debug, Clone, Copy, PartialEq, Eq, Hash, Structural)]
pub struct LocalStructFieldId(pub usize);

/// A field: its name and the slot of its type.
#[derive(Debug, PartialEq, Eq)]
pub struct FieldData {
    pub name: Name,
    pub type_ref: LocalTypeRefId,
}

/// What [`StructData`] holds.
pub struct StructDataView {
    pub name: Name,
    pub fields: Seq<FieldData>,
    pub type_refs: Seq<TypeRef>,
    pub sources: Seq<Option<SyntaxNodePtr>>,
}

/// The data of a struct, from its item. Each field has a slot for its type, in
/// the order of the fields.
pub open spec fn struct_data_of(item: StructItem) -> StructDataView {
    StructDataView {
        name: item.name,
        fields: Seq::new(
            item.fields@.len(),
            |i: int| FieldData { name: item.fields@[i].name, type_ref: LocalTypeRefId(i as usize) },
        ),
        type_refs: Seq::new(item.fields@.len(), |i: int| slot_type(item.fields@[i].ty)),
        sources: Seq::new(item.fields@.len(), |i: int| slot_syntax(item.fields@[i].ty)),
    }
}

/// The fields of a struct and the types that they mention.
#[derive(Debug, PartialEq, Eq)]
pub struct StructData {
    name: Name,
    fields: Vec<FieldData>,
    type_ref_map: TypeRefMap,
    type_ref_source_map: TypeRefSourceMap,
}

impl View for StructData {
    type V = StructDataView;

    closed spec fn view(&self) -> StructDataView {
        StructDataView {
            name: self.name,
            fields: self.fields@,
            type_refs: self.type_ref_map@,
            sources: self.type_ref_source_map@,
        }
    }
}

impl StructData {
    /// The data of the struct `id`, read from its item.
    pub fn struct_data_query(db: &DefDatabase, id: StructId) -> (data: StructData)
        requires
            db.wf(),
            db.has_struct(id),
        ensures
            data@ == struct_data_of(db.struct_item(id)),
    {
        let loc = id.lookup(db);
        let item_tree = db.item_tree(loc.id.file_id);
        let strukt = &item_tree.structs[loc.id.value];

        let mut type_ref_builder = TypeRefBuilder::new();
        let mut fields: Vec<FieldData> = Vec::new();
        let mut i: usize = 0;
        while i < strukt.fields.len()
            invariant
                0 <= i <= strukt.fields@.len(),
                type_ref_builder.wf(),
                fields@ == Seq::new(
                    i as nat,
                    |k: int|
                        FieldData {
                            name: strukt.fields@[k].name,
                            type_ref: LocalTypeRefId(k as usize),
                        },
                ),
                type_ref_builder.type_refs() == Seq::new(
                    i as nat,
                    |k: int| slot_type(strukt.fields@[k].ty),
                ),
                type_ref_builder.sources() == Seq::new(
                    i as nat,
                    |k: int| slot_syntax(strukt.fields@[k].ty),
                ),
            decreases strukt.fields@.len() - i,
        {
            let field = &strukt.fields[i];
            let type_ref = type_ref_builder.alloc_from_node_opt(&field.ty);
            fields.push(FieldData { name: field.name.clone(), type_ref });
            i += 1;
        }

        let (type_ref_map, type_ref_source_map) = type_ref_builder.finish();
        StructData { name: strukt.name.clone(), fields, type_ref_map, type_ref_source_map }
    }

    pub fn name(&self) -> (name: &Name)
        ensures
            *name == self@.name,
    {
        &self.name
    }

    /// The fields, in the order of their declaration.
    pub fn fields(&self) -> (fields: &[FieldData])
        ensures
            fields@ == self@.fields,
    {
        self.fields.as_slice()
    }

    pub fn type_ref_source_map(&self) -> (source_map: &TypeRefSourceMap)
        ensures
            source_map@ == self@.sources,
    {
        &self.type_ref_source_map
    }

    pub fn type_ref_map(&self) -> (map: &TypeRefMap)
        ensures
            map@ == self@.type_refs,
    {
        &self.type_ref_map
    }
}

/// What [`TypeAliasData`] holds.
pub struct TypeAliasDataView {
    pub name: Name,
    pub type_ref_id: LocalTypeRefId,
    pub type_refs: Seq<TypeRef>,
    pub sources: Seq<Option<SyntaxNodePtr>>,
}

/// The data of a type alias, from its item: one slot, for the type that the
/// alias stands for.
pub open spec fn type_alias_data_of(item: TypeAliasItem) -> TypeAliasDataView {
    TypeAliasDataView {
        name: item.name,
        type_ref_id: LocalTypeRefId(0),
        type_refs: seq![slot_type(item.type_ref)],
        sources: seq![slot_syntax(item.type_ref)],
    }
}

/// The type that an alias stands for, as written.
#[derive(Debug, PartialEq, Eq)]
pub struct TypeAliasData {
    name: Name,
    type_ref_id: LocalTypeRefId,
    type_ref_map: TypeRefMap,
    type_ref_source_map: TypeRefSourceMap,
}

impl View for TypeAliasData {
    type V = TypeAliasDataView;

    closed spec fn view(&self) -> TypeAliasDataView {
        TypeAliasDataView {
            name: self.name,
            type_ref_id: self.type_ref_id,
            type_refs: self.type_ref_map@,
            sources: self.type_ref_source_map@,
        }
    }
}

impl TypeAliasData {
    /// The data of the type alias `id`, read from its item.
    pub fn type_alias_data_query(db: &DefDatabase, id: TypeAliasId) -> (data: TypeAliasData)
        requires
            db.wf(),
            db.has_type_alias(id),
        ensures
            data@ == type_alias_data_of(db.type_alias_item(id)),
    {
        let loc = id.lookup(db);
        let item_tree = db.item_tree(loc.id.file_id);
        let alias = &item_tree.type_aliases[loc.id.value];

        let mut type_ref_builder = TypeRefBuilder::new();
        let type_ref_id = type_ref_builder.alloc_from_node_opt(&alias.type_ref);
        let (type_ref_map, type_ref_source_map) = type_ref_builder.finish();
        TypeAliasData { name: alias.name.clone(), type_ref_id, type_ref_map, type_ref_source_map }
    }

    pub fn name(&self) -> (name: &Name)
        ensures
            *name == self@.name,
    {
        &self.name
    }

    /// The slot of the type that the alias stands for.
    pub fn type_ref_id(&self) -> (id: LocalTypeRefId)
        ensures
            id == self@.type_ref_id,
    {
        self.type_ref_id
    }

    pub fn type_ref_source_map(&self) -> (source_map: &TypeRefSourceMap)
        ensures
            source_map@ == self@.sources,
    {
        &self.type_ref_source_map
    }

    pub fn type_ref_map(&self) -> (map: &TypeRefMap)
        ensures
            map@ == self@.type_refs,
    {
        &self.type_ref_map
    }
}

} // verus!
