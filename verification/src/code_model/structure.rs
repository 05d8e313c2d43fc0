//! Structs and their fields.

use crate::adt::{struct_data_of, LocalStructFieldId, StructData};
use crate::code_model::module::{is_first, Module};
use crate::code_model::{DefWithStruct, Struct};
use crate::db::{DefDatabase, HirDatabase};
use crate::diagnostics::{Diagnostic, DiagnosticSink};
use crate::item_tree::StructItem;
use crate::name::Name;
use crate::resolve::{Resolver, Scope};
use crate::ty::{lower_reports, LowerBatchResult, Ty};
use vstd::prelude::*;

verus! {

/// A field of a struct. The handle is good for as long as the data of the
/// struct is.
#[derive(Debug, Clone, Copy, PartialEq, Eq, Hash, Structural)]
pub struct StructField {
    pub parent: Struct,
    pub id: LocalStructFieldId,
}

/// The names of the fields of a struct, in the order of the fields.
pub open spec fn field_names(item: StructItem) -> Seq<Seq<char>> {
    Seq::new(item.fields@.len(), |i: int| item.fields@[i].name@)
}

/// The fields of a struct, in the order of their declaration.
pub open spec fn fields_of(strukt: Struct, item: StructItem) -> Seq<StructField> {
    Seq::new(
        item.fields@.len(),
        |i: int| StructField { parent: strukt, id: LocalStructFieldId(i as usize) },
    )
}

/// What a struct reports: what lowering the types of its fields found.
pub open spec fn struct_diagnostics(db: HirDatabase, strukt: Struct) -> Seq<Diagnostic> {
    lower_reports(
        db.defs().structs()[strukt.id.0 as int].file_id,
        struct_data_of(db.defs().struct_item(strukt.id)).sources,
        db.struct_lowering_of(strukt).diagnostics@,
    )
}

impl StructField {
    /// Whether this is a field of a struct of `db`.
    pub open spec fn exists_in(self, db: DefDatabase) -> bool {
        &&& db.has_struct(self.parent.id)
        &&& self.id.0 < db.struct_item(self.parent.id).fields@.len()
    }

    /// The lowered type of the field.
    pub fn ty(self, db: &HirDatabase) -> (ty: Ty)
        requires
            db.wf(),
            self.exists_in(db.defs()),
        ensures
            ty == db.struct_lowering_of(self.parent).types@[self.id.0 as int],
    {
        let data = self.parent.data(db.upcast());
        let type_ref_id = data.fields()[self.id.0].type_ref;
        let lower = self.parent.lower(db);
        lower.ty(type_ref_id)
    }

    pub fn name(self, db: &HirDatabase) -> (name: Name)
        requires
            db.wf(),
            self.exists_in(db.defs()),
        ensures
            name == db.defs().struct_item(self.parent.id).fields@[self.id.0 as int].name,
    {
        self.parent.data(db.upcast()).fields()[self.id.0].name.clone()
    }

    pub fn id(self) -> (id: LocalStructFieldId)
        ensures
            id == self.id,
    {
        self.id
    }
}

impl Struct {
    /// The module that declares the struct.
    pub fn module(self, db: &DefDatabase) -> (module: Module)
        requires
            db.has_struct(self.id),
        ensures
            module.file_id == db.structs()[self.id.0 as int].file_id,
    {
        Module { file_id: self.id.lookup(db).id.file_id }
    }

    /// What the definition of the struct says.
    pub fn data(self, db: &DefDatabase) -> (data: StructData)
        requires
            db.wf(),
            db.has_struct(self.id),
        ensures
            data@ == struct_data_of(db.struct_item(self.id)),
    {
        StructData::struct_data_query(db, self.id)
    }

    pub fn name(self, db: &DefDatabase) -> (name: Name)
        requires
            db.wf(),
            db.has_struct(self.id),
        ensures
            name == db.struct_item(self.id).name,
    {
        self.data(db).name().clone()
    }

    /// The fields, in the order of their declaration.
    pub fn fields(self, db: &HirDatabase) -> (fields: Vec<StructField>)
        requires
            db.wf(),
            db.has_struct(self),
        ensures
            fields@ == fields_of(self, db.defs().struct_item(self.id)),
    {
        let data = self.data(db.upcast());
        let count = data.fields().len();
        let mut fields: Vec<StructField> = Vec::new();
        let mut i: usize = 0;
        while i < count
            invariant
                0 <= i <= count,
                fields@ == Seq::new(
                    i as nat,
                    |k: int| StructField { parent: self, id: LocalStructFieldId(k as usize) },
                ),
            decreases count - i,
        {
            fields.push(StructField { parent: self, id: LocalStructFieldId(i) });
            i += 1;
        }
        fields
    }

    /// The first field that is called `name`, if a field is.
    pub fn field(self, db: &HirDatabase, name: &Name) -> (field: Option<StructField>)
        requires
            db.wf(),
            db.has_struct(self),
        ensures
            match field {
                Some(field) => {
                    &&& field.parent == self
                    &&& is_first(
                        field_names(db.defs().struct_item(self.id)),
                        name@,
                        field.id.0 as int,
                    )
                },
                None => forall|i: int|
                    0 <= i < field_names(db.defs().struct_item(self.id)).len() ==> #[trigger] field_names(
                        db.defs().struct_item(self.id),
                    )[i] != name@,
            },
    {
        let data = self.data(db.upcast());
        let ghost names = field_names(db.defs().struct_item(self.id));
        let fields = data.fields();
        let mut i: usize = 0;
        while i < fields.len()
            invariant
                0 <= i <= fields@.len(),
                fields@ == struct_data_of(db.defs().struct_item(self.id)).fields,
                names == field_names(db.defs().struct_item(self.id)),
                forall|k: int| 0 <= k < i ==> #[trigger] names[k] != name@,
            decreases fields@.len() - i,
        {
            if fields[i].name == *name {
                return Some(StructField { parent: self, id: LocalStructFieldId(i) });
            }
            i += 1;
        }
        None
    }

    /// The type that the struct defines.
    pub fn ty(self, db: &HirDatabase) -> (ty: Ty)
        ensures
            ty == Ty::Struct(self),
    {
        Ty::Struct(self)
    }

    /// The lowered types of the fields.
    pub fn lower(self, db: &HirDatabase) -> (result: &LowerBatchResult)
        requires
            db.wf(),
            db.has_struct(self),
        ensures
            *result == db.struct_lowering_of(self),
            result.fits(struct_data_of(db.defs().struct_item(self.id)).sources),
    {
        db.lower_struct(self)
    }

    /// The resolver for the types of the fields: that of the module.
    pub fn resolver(self, db: &HirDatabase) -> (resolver: Resolver)
        requires
            db.has_struct(self),
        ensures
            resolver@ == seq![Scope::ModuleScope(db.defs().structs()[self.id.0 as int].file_id)],
    {
        self.module(db.upcast()).resolver(db.upcast())
    }

    /// Reports what lowering the types of the fields found, each finding at
    /// the place where the type is written.
    pub fn diagnostics(self, db: &HirDatabase, sink: &mut DiagnosticSink)
        requires
            db.wf(),
            db.has_struct(self),
        ensures
            final(sink)@ == old(sink)@ + struct_diagnostics(*db, self),
    {
        let data = self.data(db.upcast());
        let lower = self.lower(db);
        lower.add_diagnostics(
            self.module(db.upcast()).file_id,
            data.type_ref_source_map(),
            sink,
        );
    }
}

impl DefWithStruct {
    /// The struct that has the fields.
    pub open spec fn strukt(self) -> Struct {
        match self {
            DefWithStruct::Struct(s) => s,
        }
    }

    pub fn fields(self, db: &HirDatabase) -> (fields: Vec<StructField>)
        requires
            db.wf(),
            db.has_struct(self.strukt()),
        ensures
            fields@ == fields_of(self.strukt(), db.defs().struct_item(self.strukt().id)),
    {
        match self {
            DefWithStruct::Struct(s) => s.fields(db),
        }
    }

    pub fn field(self, db: &HirDatabase, name: &Name) -> (field: Option<StructField>)
        requires
            db.wf(),
            db.has_struct(self.strukt()),
        ensures
            match field {
                Some(field) => {
                    &&& field.parent == self.strukt()
                    &&& is_first(
                        field_names(db.defs().struct_item(self.strukt().id)),
                        name@,
                        field.id.0 as int,
                    )
                },
                None => forall|i: int|
                    0 <= i < field_names(db.defs().struct_item(self.strukt().id)).len()
                        ==> #[trigger] field_names(db.defs().struct_item(self.strukt().id))[i]
                        != name@,
            },
    {
        match self {
            DefWithStruct::Struct(s) => s.field(db, name),
        }
    }

    pub fn module(self, db: &HirDatabase) -> (module: Module)
        requires
            db.has_struct(self.strukt()),
        ensures
            module.file_id == db.defs().structs()[self.strukt().id.0 as int].file_id,
    {
        match self {
            DefWithStruct::Struct(s) => s.module(db.upcast()),
        }
    }

    pub fn data(self, db: &HirDatabase) -> (data: StructData)
        requires
            db.wf(),
            db.has_struct(self.strukt()),
        ensures
            data@ == struct_data_of(db.defs().struct_item(self.strukt().id)),
    {
        match self {
            DefWithStruct::Struct(s) => s.data(db.upcast()),
        }
    }
}

} // verus!
