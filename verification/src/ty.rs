//! Types, and what the phases that find them hand back. Lowering and
//! inference are done elsewhere; the model keeps their results and reports
//! their findings.

use crate::builtin_type::BuiltinType;
use crate::code_model::{Function, Struct};
use crate::diagnostics::{Diagnostic, DiagnosticSink, Finding, Phase, finding_reports};
use crate::ids::FileId;
use crate::type_ref::{LocalTypeRefId, TypeRefSourceMap};
use mun_syntax::SyntaxNodePtr;
use vstd::prelude::*;

verus! {

/// A type.
#[derive(Debug, Clone, Copy, PartialEq, Eq, Hash, Structural)]
pub enum Ty {
    /// The type is not known: nothing was written, or what was written names
    /// no type.
    Unknown,
    /// The type of what never returns.
    Never,
    /// The unit type.
    Unit,
    Builtin(BuiltinType),
    Struct(Struct),
    /// The type of a function as a value.
    FnDef(Function),
}

impl Ty {
    /// Whether a type alias can stand for this type. A reference may resolve
    /// and still name nothing that can be used as a type.
    pub open spec fn spec_is_type_target(self) -> bool {
        !(self is Unknown) && !(self is FnDef)
    }

    #[verifier::when_used_as_spec(spec_is_type_target)]
    pub fn is_type_target(self) -> (usable: bool)
        ensures
            usable == self.spec_is_type_target(),
    {
        match self {
            Ty::Unknown => false,
            Ty::FnDef(_) => false,
            _ => true,
        }
    }
}

/// What type inference found in the body of a function.
#[derive(Debug, PartialEq, Eq)]
pub struct InferenceResult {
    pub findings: Vec<Finding>,
}

impl InferenceResult {
    /// Reports the findings of inference in `file`.
    pub fn add_diagnostics(&self, file: FileId, sink: &mut DiagnosticSink)
        ensures
            final(sink)@ == old(sink)@ + finding_reports(file, Phase::Inference, self.findings@),
    {
        sink.push_findings(file, Phase::Inference, &self.findings);
    }
}

/// A finding of lowering.
#[derive(Debug, Clone, Copy, PartialEq, Eq, Hash, Structural)]
pub enum LowerDiagnostic {
    /// The reference in slot `id` names no type.
    UnresolvedType { id: LocalTypeRefId },
}

impl LowerDiagnostic {
    /// The slot that the finding is about.
    pub open spec fn slot(self) -> LocalTypeRefId {
        match self {
            LowerDiagnostic::UnresolvedType { id } => id,
        }
    }
}

/// The result of lowering the type references of one definition: the type of
/// each slot, and what could not be resolved.
#[derive(Debug, PartialEq, Eq)]
pub struct LowerBatchResult {
    pub types: Vec<Ty>,
    pub diagnostics: Vec<LowerDiagnostic>,
}

/// Whether every finding is about a slot that was written in the source.
pub open spec fn findings_have_syntax(
    diagnostics: Seq<LowerDiagnostic>,
    sources: Seq<Option<SyntaxNodePtr>>,
) -> bool {
    forall|i: int|
        0 <= i < diagnostics.len() ==> {
            &&& (#[trigger] diagnostics[i]).slot().0 < sources.len()
            &&& sources[diagnostics[i].slot().0 as int] is Some
        }
}

/// The diagnostic that reports a finding of lowering, at the place where the
/// type was written.
pub open spec fn lower_report(
    file: FileId,
    sources: Seq<Option<SyntaxNodePtr>>,
    diagnostic: LowerDiagnostic,
) -> Diagnostic {
    Diagnostic::UnresolvedType { file, type_ref: sources[diagnostic.slot().0 as int]->0 }
}

/// The diagnostics that report the findings of lowering, in their order.
pub open spec fn lower_reports(
    file: FileId,
    sources: Seq<Option<SyntaxNodePtr>>,
    diagnostics: Seq<LowerDiagnostic>,
) -> Seq<Diagnostic> {
    Seq::new(diagnostics.len(), |i: int| lower_report(file, sources, diagnostics[i]))
}

impl LowerBatchResult {
    /// Whether this is a result for a definition with these slots: a type for
    /// each slot, and findings only about slots that were written.
    pub open spec fn fits(&self, sources: Seq<Option<SyntaxNodePtr>>) -> bool {
        &&& self.types@.len() == sources.len()
        &&& findings_have_syntax(self.diagnostics@, sources)
    }

    /// The type of slot `id`.
    pub fn ty(&self, id: LocalTypeRefId) -> (ty: Ty)
        requires
            id.0 < self.types@.len(),
        ensures
            ty == self.types@[id.0 as int],
    {
        self.types[id.0]
    }

    /// Reports the findings of lowering in `file`, each at the place that the
    /// source map gives for its slot.
    pub fn add_diagnostics(
        &self,
        file: FileId,
        source_map: &TypeRefSourceMap,
        sink: &mut DiagnosticSink,
    )
        requires
            findings_have_syntax(self.diagnostics@, source_map@),
        ensures
            final(sink)@ == old(sink)@ + lower_reports(file, source_map@, self.diagnostics@),
    {
        let ghost reports = lower_reports(file, source_map@, self.diagnostics@);
        let mut i: usize = 0;
        while i < self.diagnostics.len()
            invariant
                0 <= i <= self.diagnostics@.len(),
                findings_have_syntax(self.diagnostics@, source_map@),
                reports == lower_reports(file, source_map@, self.diagnostics@),
                sink@ == old(sink)@ + reports.take(i as int),
            decreases self.diagnostics@.len() - i,
        {
            let diagnostic = self.diagnostics[i];
            match diagnostic {
                LowerDiagnostic::UnresolvedType { id } => {
                    if let Some(type_ref) = source_map.type_ref_syntax(id) {
                        sink.push(Diagnostic::UnresolvedType { file, type_ref });
                    }
                },
            }
            i += 1;
        }
    }
}

} // verus!
