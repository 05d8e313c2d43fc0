//! Type aliases.

use crate::adt::{type_alias_data_of, TypeAliasData};
use crate::code_model::module::Module;
use crate::code_model::TypeAlias;
use crate::db::{DefDatabase, HirDatabase};
use crate::diagnostics::{Diagnostic, DiagnosticSink};
use crate::name::Name;
use crate::resolve::{Resolver, Scope};
use crate::ty::{lower_reports, LowerBatchResult};
use crate::type_ref::LocalTypeRefId;
use crate::validator::{target_type_reports, TypeAliasValidator};
use vstd::prelude::*;

verus! {

/// What a type alias reports: what lowering its type found, then whether it
/// stands for a type.
pub open spec fn type_alias_diagnostics(db: HirDatabase, alias: TypeAlias) -> Seq<Diagnostic> {
    lower_reports(
        db.defs().type_aliases()[alias.id.0 as int].file_id,
        type_alias_data_of(db.defs().type_alias_item(alias.id)).sources,
        db.type_alias_lowering_of(alias).diagnostics@,
    ) + target_type_reports(db, alias)
}

impl TypeAlias {
    /// The module that declares the type alias.
    pub fn module(self, db: &DefDatabase) -> (module: Module)
        requires
            db.has_type_alias(self.id),
        ensures
            module.file_id == db.type_aliases()[self.id.0 as int].file_id,
    {
        Module { file_id: self.id.lookup(db).id.file_id }
    }

    /// What the definition of the type alias says.
    pub fn data(self, db: &DefDatabase) -> (data: TypeAliasData)
        requires
            db.wf(),
            db.has_type_alias(self.id),
        ensures
            data@ == type_alias_data_of(db.type_alias_item(self.id)),
    {
        TypeAliasData::type_alias_data_query(db, self.id)
    }

    pub fn name(self, db: &DefDatabase) -> (name: Name)
        requires
            db.wf(),
            db.has_type_alias(self.id),
        ensures
            name == db.type_alias_item(self.id).name,
    {
        self.data(db).name().clone()
    }

    /// The slot of the type that the alias stands for.
    pub fn type_ref(self, db: &HirDatabase) -> (id: LocalTypeRefId)
        requires
            db.wf(),
            db.has_type_alias(self),
        ensures
            id == type_alias_data_of(db.defs().type_alias_item(self.id)).type_ref_id,
    {
        self.data(db.upcast()).type_ref_id()
    }

    /// The lowered type that the alias stands for.
    pub fn lower(self, db: &HirDatabase) -> (result: &LowerBatchResult)
        requires
            db.wf(),
            db.has_type_alias(self),
        ensures
            *result == db.type_alias_lowering_of(self),
            result.fits(type_alias_data_of(db.defs().type_alias_item(self.id)).sources),
    {
        db.lower_type_alias(self)
    }

    /// The resolver for the type of the alias: that of its module.
    pub fn resolver(self, db: &HirDatabase) -> (resolver: Resolver)
        requires
            db.has_type_alias(self),
        ensures
            resolver@ == seq![
                Scope::ModuleScope(db.defs().type_aliases()[self.id.0 as int].file_id),
            ],
    {
        self.module(db.upcast()).resolver(db.upcast())
    }

    /// Reports what lowering the type of the alias found, each finding at the
    /// place where the type is written, and then whether the alias stands for
    /// a type.
    pub fn diagnostics(self, db: &HirDatabase, sink: &mut DiagnosticSink)
        requires
            db.wf(),
            db.has_type_alias(self),
        ensures
            final(sink)@ == old(sink)@ + type_alias_diagnostics(*db, self),
    {
        let data = self.data(db.upcast());
        let lower = self.lower(db);
        lower.add_diagnostics(
            self.module(db.upcast()).file_id,
            data.type_ref_source_map(),
            sink,
        );

        let validator = TypeAliasValidator::new(self, db);
        validator.validate_target_type_existence(sink);
    }
}

} // verus!
