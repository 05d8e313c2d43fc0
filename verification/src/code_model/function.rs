//! Functions: what the signature of a function says.

use crate::code_model::module::Module;
use crate::code_model::{DefWithBody, Function, Visibility};
use crate::db::{DefDatabase, HirDatabase};
use crate::diagnostics::{finding_reports, Diagnostic, DiagnosticSink, Phase};
use crate::expr::{Body, BodySourceMap};
use crate::resolve::{Resolver, Scope};
use crate::ty::{InferenceResult, Ty};
use crate::validator::ExprValidator;
use crate::ids::FunctionId;
use crate::item_tree::FunctionItem;
use crate::name::Name;
use crate::type_ref::{
    slot_syntax, slot_type, LocalTypeRefId, TypeRef, TypeRefBuilder, TypeRefMap, TypeRefSourceMap,
};
use mun_syntax::SyntaxNodePtr;
use vstd::prelude::*;

verus! {

/// What [`FunctionData`] holds.
pub struct FunctionDataView {
    pub name: Name,
    pub params: Seq<LocalTypeRefId>,
    pub visibility: Visibility,
    pub ret_type: LocalTypeRefId,
    pub type_refs: Seq<TypeRef>,
    pub sources: Seq<Option<SyntaxNodePtr>>,
    pub is_extern: bool,
}

/// The visibility that the syntax gives: public with a marker, private
/// without.
pub open spec fn visibility_of(has_visibility: bool) -> Visibility {
    if has_visibility {
        Visibility::Public
    } else {
        Visibility::Private
    }
}

/// The type reference that stands for the return type: the one written, or
/// the unit type where none is.
pub open spec fn ret_type_of(item: FunctionItem) -> TypeRef {
    match item.ret_type {
        Some(annotation) => annotation.type_ref,
        None => TypeRef::Unit,
    }
}

/// The data of a function, from its item. Each parameter has a slot, in order,
/// whether a type is written for it or not; the return type has the slot behind
/// them.
pub open spec fn function_data_of(item: FunctionItem) -> FunctionDataView {
    FunctionDataView {
        name: item.name,
        params: Seq::new(item.params@.len(), |i: int| LocalTypeRefId(i as usize)),
        visibility: visibility_of(item.has_visibility),
        ret_type: LocalTypeRefId(item.params@.len() as usize),
        type_refs: Seq::new(item.params@.len(), |i: int| slot_type(item.params@[i])).push(
            ret_type_of(item),
        ),
        sources: Seq::new(item.params@.len(), |i: int| slot_syntax(item.params@[i])).push(
            slot_syntax(item.ret_type),
        ),
        is_extern: item.is_extern,
    }
}

/// The signature of a function.
#[derive(Debug, PartialEq, Eq)]
pub struct FunctionData {
    name: Name,
    params: Vec<LocalTypeRefId>,
    visibility: Visibility,
    ret_type: LocalTypeRefId,
    type_ref_map: TypeRefMap,
    type_ref_source_map: TypeRefSourceMap,
    is_extern: bool,
}

impl View for FunctionData {
    type V = FunctionDataView;

    closed spec fn view(&self) -> FunctionDataView {
        FunctionDataView {
            name: self.name,
            params: self.params@,
            visibility: self.visibility,
            ret_type: self.ret_type,
            type_refs: self.type_ref_map@,
            sources: self.type_ref_source_map@,
            is_extern: self.is_extern,
        }
    }
}

impl FunctionData {
    /// The data of the function `func`, read from its item.
    pub fn fn_data_query(db: &DefDatabase, func: FunctionId) -> (data: FunctionData)
        requires
            db.wf(),
            db.has_function(func),
        ensures
            data@ == function_data_of(db.function_item(func)),
    {
        let loc = func.lookup(db);
        let item_tree = db.item_tree(loc.id.file_id);
        let func = &item_tree.functions[loc.id.value];

        let mut type_ref_builder = TypeRefBuilder::new();

        let visibility = if func.has_visibility {
            Visibility::Public
        } else {
            Visibility::Private
        };

        let mut params: Vec<LocalTypeRefId> = Vec::new();
        let mut i: usize = 0;
        while i < func.params.len()
            invariant
                0 <= i <= func.params@.len(),
                type_ref_builder.wf(),
                params@ == Seq::new(i as nat, |k: int| LocalTypeRefId(k as usize)),
                type_ref_builder.type_refs() == Seq::new(
                    i as nat,
                    |k: int| slot_type(func.params@[k]),
                ),
                type_ref_builder.sources() == Seq::new(
                    i as nat,
                    |k: int| slot_syntax(func.params@[k]),
                ),
            decreases func.params@.len() - i,
        {
            let type_ref = type_ref_builder.alloc_from_node_opt(&func.params[i]);
            params.push(type_ref);
            i += 1;
        }

        let ret_type = match &func.ret_type {
            Some(type_ref) => type_ref_builder.alloc_from_node(type_ref),
            None => type_ref_builder.unit(),
        };

        let (type_ref_map, type_ref_source_map) = type_ref_builder.finish();

        FunctionData {
            name: func.name.clone(),
            params,
            visibility,
            ret_type,
            type_ref_map,
            type_ref_source_map,
            is_extern: func.is_extern,
        }
    }

    pub fn name(&self) -> (name: &Name)
        ensures
            *name == self@.name,
    {
        &self.name
    }

    /// The slots of the parameters, in the order of the parameters.
    pub fn params(&self) -> (params: &[LocalTypeRefId])
        ensures
            params@ == self@.params,
    {
        self.params.as_slice()
    }

    pub fn visibility(&self) -> (visibility: Visibility)
        ensures
            visibility == self@.visibility,
    {
        self.visibility
    }

    /// The slot of the return type.
    pub fn ret_type(&self) -> (ret_type: &LocalTypeRefId)
        ensures
            *ret_type == self@.ret_type,
    {
        &self.ret_type
    }

    pub fn type_ref_source_map(&self) -> (source_map: &TypeRefSourceMap)
        ensures
            source_map@ == self@.sources,
    {
        &self.type_ref_source_map
    }

    pub fn type_ref_map(&self) -> (map: &TypeRefMap)
        ensures
            map@ == self@.type_refs,
    {
        &self.type_ref_map
    }

    /// Whether the function is declared `extern`.
    pub fn is_extern(&self) -> (is_extern: bool)
        ensures
            is_extern == self@.is_extern,
    {
        self.is_extern
    }
}

/// The parameters of an item are no more than a `usize` counts.
proof fn lemma_params_fit(item: FunctionItem)
    ensures
        item.params@.len() <= usize::MAX,
{
    assert(item.params@.len() == item.params.len());
}

/// Every parameter has a slot, one for one and in order, and the slot of a
/// parameter without a type holds the marker of a missing type.
pub proof fn lemma_params_keep_their_slots(item: FunctionItem, i: int)
    requires
        0 <= i < item.params@.len(),
    ensures
        function_data_of(item).params.len() == item.params@.len(),
        function_data_of(item).params[i].0 < function_data_of(item).type_refs.len(),
        function_data_of(item).type_refs[function_data_of(item).params[i].0 as int] == slot_type(
            item.params@[i],
        ),
        item.params@[i] is None ==> function_data_of(item).type_refs[function_data_of(
            item,
        ).params[i].0 as int] == TypeRef::Error,
        function_data_of(item).sources[function_data_of(item).params[i].0 as int] == slot_syntax(
            item.params@[i],
        ),
{
    lemma_params_fit(item);
}

/// A function without a return type returns the unit type, and the slot of
/// its return type has no place in the source.
pub proof fn lemma_missing_ret_type_is_unit(item: FunctionItem)
    requires
        item.ret_type is None,
    ensures
        function_data_of(item).type_refs[function_data_of(item).ret_type.0 as int] == TypeRef::Unit,
        function_data_of(item).sources[function_data_of(item).ret_type.0 as int]
            == None::<SyntaxNodePtr>,
{
    lemma_params_fit(item);
}

/// A return type that is written is the return type.
pub proof fn lemma_written_ret_type_is_kept(item: FunctionItem)
    requires
        item.ret_type is Some,
    ensures
        function_data_of(item).type_refs[function_data_of(item).ret_type.0 as int]
            == item.ret_type->0.type_ref,
        function_data_of(item).sources[function_data_of(item).ret_type.0 as int] == Some(
            item.ret_type->0.ptr,
        ),
{
    lemma_params_fit(item);
}

/// A function is private unless a visibility marker stands before it.
pub proof fn lemma_visibility_defaults_to_private(item: FunctionItem)
    ensures
        !item.has_visibility ==> function_data_of(item).visibility == Visibility::Private,
        item.has_visibility ==> function_data_of(item).visibility == Visibility::Public,
{
}

/// What a function reports: what building its body found, then what inference
/// found, then what the validation of the body found.
pub open spec fn function_diagnostics(db: HirDatabase, function: Function) -> Seq<Diagnostic> {
    let file = db.defs().functions()[function.id.0 as int].file_id;
    let analysis = db.analysis_of(function);
    finding_reports(file, Phase::Body, analysis.body.findings@) + finding_reports(
        file,
        Phase::Inference,
        analysis.inference.findings@,
    ) + finding_reports(file, Phase::Validation, analysis.validation@)
}

impl Function {
    /// The module that declares the function.
    pub fn module(self, db: &DefDatabase) -> (module: Module)
        requires
            db.has_function(self.id),
        ensures
            module.file_id == db.functions()[self.id.0 as int].file_id,
    {
        Module { file_id: self.id.lookup(db).id.file_id }
    }

    pub fn name(self, db: &HirDatabase) -> (name: Name)
        requires
            db.wf(),
            db.has_function(self),
        ensures
            name == db.defs().function_item(self.id).name,
    {
        self.data(db).name().clone()
    }

    pub fn visibility(self, db: &HirDatabase) -> (visibility: Visibility)
        requires
            db.wf(),
            db.has_function(self),
        ensures
            visibility == visibility_of(db.defs().function_item(self.id).has_visibility),
    {
        self.data(db).visibility()
    }

    /// The signature of the function.
    pub fn data(self, db: &HirDatabase) -> (data: FunctionData)
        requires
            db.wf(),
            db.has_function(self),
        ensures
            data@ == function_data_of(db.defs().function_item(self.id)),
    {
        db.fn_data(self.id)
    }

    /// What building the body of the function found.
    pub fn body(self, db: &HirDatabase) -> (body: &Body)
        requires
            db.wf(),
            db.has_function(self),
        ensures
            *body == db.analysis_of(self).body,
    {
        db.body(DefWithBody::Function(self))
    }

    /// The type of the function as a value.
    pub fn ty(self, db: &HirDatabase) -> (ty: Ty)
        ensures
            ty == Ty::FnDef(self),
    {
        Ty::FnDef(self)
    }

    /// What type inference found in the function.
    pub fn infer(self, db: &HirDatabase) -> (result: &InferenceResult)
        requires
            db.wf(),
            db.has_function(self),
        ensures
            *result == db.analysis_of(self).inference,
    {
        db.infer(DefWithBody::Function(self))
    }

    /// Whether the function is declared `extern`.
    pub fn is_extern(self, db: &HirDatabase) -> (is_extern: bool)
        requires
            db.wf(),
            db.has_function(self),
        ensures
            is_extern == db.defs().function_item(self.id).is_extern,
    {
        db.fn_data(self.id).is_extern()
    }

    /// The places of the expressions of the body.
    pub fn body_source_map(self, db: &HirDatabase) -> (source_map: &BodySourceMap)
        requires
            db.wf(),
            db.has_function(self),
        ensures
            *source_map == db.analysis_of(self).body_source_map,
    {
        db.body_with_source_map(DefWithBody::Function(self)).1
    }

    /// The resolver for the code of the function: that of its module.
    pub fn resolver(self, db: &HirDatabase) -> (resolver: Resolver)
        requires
            db.has_function(self),
        ensures
            resolver@ == seq![
                Scope::ModuleScope(db.defs().functions()[self.id.0 as int].file_id),
            ],
    {
        self.module(db.upcast()).resolver(db.upcast())
    }

    /// Reports what the later phases found in the function: what building the
    /// body found first, then what inference found, then what validation
    /// found.
    pub fn diagnostics(self, db: &HirDatabase, sink: &mut DiagnosticSink)
        requires
            db.wf(),
            db.has_function(self),
        ensures
            final(sink)@ == old(sink)@ + function_diagnostics(*db, self),
    {
        let file = self.module(db.upcast()).file_id;
        let body = self.body(db);
        body.add_diagnostics(file, sink);
        let infer = self.infer(db);
        infer.add_diagnostics(file, sink);
        let validator = ExprValidator::new(self, db);
        validator.validate_body(sink);
    }
}

impl DefWithBody {
    /// What type inference found in the body.
    pub fn infer(self, db: &HirDatabase) -> (result: &InferenceResult)
        requires
            db.wf(),
            db.has_function(self.function()),
        ensures
            *result == db.analysis_of(self.function()).inference,
    {
        db.infer(self)
    }

    /// What building the body found.
    pub fn body(self, db: &HirDatabase) -> (body: &Body)
        requires
            db.wf(),
            db.has_function(self.function()),
        ensures
            *body == db.analysis_of(self.function()).body,
    {
        db.body(self)
    }

    /// The places of the expressions of the body.
    pub fn body_source_map(self, db: &HirDatabase) -> (source_map: &BodySourceMap)
        requires
            db.wf(),
            db.has_function(self.function()),
        ensures
            *source_map == db.analysis_of(self.function()).body_source_map,
    {
        db.body_with_source_map(self).1
    }

    /// The resolver for the code inside this definition.
    pub fn resolver(self, db: &HirDatabase) -> (resolver: Resolver)
        requires
            db.has_function(self.function()),
        ensures
            resolver@ == seq![
                Scope::ModuleScope(db.defs().functions()[self.function().id.0 as int].file_id),
            ],
    {
        match self {
            DefWithBody::Function(f) => f.resolver(db),
        }
    }
}

} // verus!
