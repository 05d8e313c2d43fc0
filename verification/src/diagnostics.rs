//! Diagnostics and the sink that gathers them.

use crate::ids::FileId;
use crate::name::Name;
use mun_syntax::SyntaxNodePtr;
use vstd::prelude::*;

verus! {

/// The phases after this one whose findings a module reports.
#[derive(Debug, Clone, Copy, PartialEq, Eq, Hash, Structural)]
pub enum Phase {
    /// Building the body of a function.
    Body,
    /// Inferring the types of a body.
    Inference,
    /// Validating a body.
    Validation,
}

/// What a later phase found at a place of a body.
#[derive(Debug, PartialEq, Eq, Hash)]
pub struct Finding {
    pub node: SyntaxNodePtr,
    pub message: String,
}

/// A diagnostic as it reaches the user: what is wrong, and where.
#[derive(Debug, PartialEq, Eq, Hash)]
pub enum Diagnostic {
    /// A name is defined a second time in one file.
    DuplicateDefinition {
        file: FileId,
        name: Name,
        definition: SyntaxNodePtr,
        first_definition: SyntaxNodePtr,
    },
    /// A type is mentioned that lowering could not resolve.
    UnresolvedType { file: FileId, type_ref: SyntaxNodePtr },
    /// A type alias stands for nothing that can be used as a type.
    MissingTargetType { file: FileId, type_alias_def: SyntaxNodePtr },
    /// A later phase found something in the body of a function.
    Analysis { file: FileId, phase: Phase, node: SyntaxNodePtr, message: String },
}

impl Clone for Finding {
    fn clone(&self) -> (copy: Self)
        ensures
            copy == *self,
    {
        Finding { node: self.node.clone(), message: self.message.clone() }
    }
}

impl Clone for Diagnostic {
    fn clone(&self) -> (copy: Self)
        ensures
            copy == *self,
    {
        match self {
            Diagnostic::DuplicateDefinition { file, name, definition, first_definition } => {
                Diagnostic::DuplicateDefinition {
                    file: *file,
                    name: name.clone(),
                    definition: definition.clone(),
                    first_definition: first_definition.clone(),
                }
            },
            Diagnostic::UnresolvedType { file, type_ref } => Diagnostic::UnresolvedType {
                file: *file,
                type_ref: type_ref.clone(),
            },
            Diagnostic::MissingTargetType { file, type_alias_def } => {
                Diagnostic::MissingTargetType { file: *file, type_alias_def: type_alias_def.clone() }
            },
            Diagnostic::Analysis { file, phase, node, message } => Diagnostic::Analysis {
                file: *file,
                phase: *phase,
                node: node.clone(),
                message: message.clone(),
            },
        }
    }
}

/// The diagnostic that reports a finding of `phase` in `file`.
pub open spec fn finding_report(file: FileId, phase: Phase, finding: Finding) -> Diagnostic {
    Diagnostic::Analysis { file, phase, node: finding.node, message: finding.message }
}

/// The diagnostics that report `findings`, in their order.
pub open spec fn finding_reports(file: FileId, phase: Phase, findings: Seq<Finding>) -> Seq<
    Diagnostic,
> {
    Seq::new(findings.len(), |i: int| finding_report(file, phase, findings[i]))
}

/// Gathers the diagnostics of one traversal, in the order in which they are
/// pushed. Nothing is ever taken out.
#[derive(Debug, PartialEq, Eq)]
pub struct DiagnosticSink {
    diagnostics: Vec<Diagnostic>,
}

impl View for DiagnosticSink {
    type V = Seq<Diagnostic>;

    closed spec fn view(&self) -> Seq<Diagnostic> {
        self.diagnostics@
    }
}

impl DiagnosticSink {
    /// A sink that holds nothing yet.
    pub fn new() -> (sink: DiagnosticSink)
        ensures
            sink@ == Seq::<Diagnostic>::empty(),
    {
        DiagnosticSink { diagnostics: Vec::new() }
    }

    /// Adds a diagnostic behind those that are there.
    pub fn push(&mut self, diagnostic: Diagnostic)
        ensures
            final(self)@ == old(self)@.push(diagnostic),
    {
        self.diagnostics.push(diagnostic);
    }

    /// The number of diagnostics gathered.
    pub fn len(&self) -> (n: usize)
        ensures
            n == self@.len(),
    {
        self.diagnostics.len()
    }

    /// What was gathered, first pushed first.
    pub fn diagnostics(&self) -> (diagnostics: &[Diagnostic])
        ensures
            diagnostics@ == self@,
    {
        self.diagnostics.as_slice()
    }

    /// Reports the findings of a phase in a file, in their order.
    pub fn push_findings(&mut self, file: FileId, phase: Phase, findings: &Vec<Finding>)
        ensures
            final(self)@ == old(self)@ + finding_reports(file, phase, findings@),
    {
        let mut i: usize = 0;
        while i < findings.len()
            invariant
                0 <= i <= findings@.len(),
                self@ == old(self)@ + finding_reports(file, phase, findings@).take(i as int),
            decreases findings@.len() - i,
        {
            let finding = &findings[i];
            self.diagnostics.push(
                Diagnostic::Analysis {
                    file,
                    phase,
                    node: finding.node.clone(),
                    message: finding.message.clone(),
                },
            );
            i += 1;
        }
    }
}

} // verus!
