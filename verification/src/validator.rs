//! Validators: the checks that are made on a definition after its types are
//! known.

use crate::adt::type_alias_data_of;
use crate::code_model::{Function, TypeAlias};
use crate::db::HirDatabase;
use crate::diagnostics::{finding_reports, Diagnostic, DiagnosticSink, Phase};
use vstd::prelude::*;

verus! {

/// Reports what the validation of the body of a function found.
pub struct ExprValidator<'a> {
    function: Function,
    db: &'a HirDatabase,
}

impl<'a> ExprValidator<'a> {
    /// The function that is validated.
    pub closed spec fn function(&self) -> Function {
        self.function
    }

    /// The database that the function belongs to.
    pub closed spec fn db(&self) -> HirDatabase {
        *self.db
    }

    pub fn new(function: Function, db: &'a HirDatabase) -> (validator: Self)
        requires
            db.wf(),
            db.has_function(function),
        ensures
            validator.function() == function,
            validator.db() == *db,
    {
        ExprValidator { function, db }
    }

    /// Reports what was found in the body, in the file of the function.
    pub fn validate_body(&self, sink: &mut DiagnosticSink)
        requires
            self.db().wf(),
            self.db().has_function(self.function()),
        ensures
            final(sink)@ == old(sink)@ + finding_reports(
                self.db().defs().functions()[self.function().id.0 as int].file_id,
                Phase::Validation,
                self.db().analysis_of(self.function()).validation@,
            ),
    {
        let file = self.function.module(self.db.upcast()).file_id;
        sink.push_findings(file, Phase::Validation, self.db.body_validation(self.function));
    }
}

/// What a type alias reports when it stands for nothing that can be used as a
/// type: one diagnostic at the alias, or nothing.
pub open spec fn target_type_reports(db: HirDatabase, alias: TypeAlias) -> Seq<Diagnostic> {
    let item = db.defs().type_alias_item(alias.id);
    let slot = type_alias_data_of(item).type_ref_id;
    if db.type_alias_lowering_of(alias).types@[slot.0 as int].is_type_target() {
        Seq::empty()
    } else {
        seq![
            Diagnostic::MissingTargetType {
                file: db.defs().type_aliases()[alias.id.0 as int].file_id,
                type_alias_def: item.ptr,
            },
        ]
    }
}

/// Checks that a type alias stands for a type.
pub struct TypeAliasValidator<'a> {
    type_alias: TypeAlias,
    db: &'a HirDatabase,
}

impl<'a> TypeAliasValidator<'a> {
    /// The type alias that is validated.
    pub closed spec fn type_alias(&self) -> TypeAlias {
        self.type_alias
    }

    /// The database that the type alias belongs to.
    pub closed spec fn db(&self) -> HirDatabase {
        *self.db
    }

    pub fn new(type_alias: TypeAlias, db: &'a HirDatabase) -> (validator: Self)
        requires
            db.wf(),
            db.has_type_alias(type_alias),
        ensures
            validator.type_alias() == type_alias,
            validator.db() == *db,
    {
        TypeAliasValidator { type_alias, db }
    }

    /// Reports the alias if the type it was lowered to cannot be used as a
    /// type: lowering may resolve a reference and still find no type there.
    pub fn validate_target_type_existence(&self, sink: &mut DiagnosticSink)
        requires
            self.db().wf(),
            self.db().has_type_alias(self.type_alias()),
        ensures
            final(sink)@ == old(sink)@ + target_type_reports(self.db(), self.type_alias()),
    {
        let data = self.type_alias.data(self.db.upcast());
        let lower = self.type_alias.lower(self.db);
        let target = lower.ty(data.type_ref_id());
        if !target.is_type_target() {
            let file = self.type_alias.module(self.db.upcast()).file_id;
            let item = self.db.upcast().type_alias_item_ref(self.type_alias.id);
            sink.push(Diagnostic::MissingTargetType { file, type_alias_def: item.ptr.clone() });
        }
    }
}

} // verus!
