//! Bodies. Building the body of a function is done elsewhere; the model keeps
//! what came of it.

use crate::diagnostics::{DiagnosticSink, Finding, Phase, finding_reports};
use crate::ids::FileId;
use mun_syntax::SyntaxNodePtr;
use vstd::prelude::*;

verus! {

/// What building the body of a function found.
#[derive(Debug, PartialEq, Eq)]
pub struct Body {
    pub findings: Vec<Finding>,
}

impl Body {
    /// Reports what was found while the body was built, in `file`.
    pub fn add_diagnostics(&self, file: FileId, sink: &mut DiagnosticSink)
        ensures
            final(sink)@ == old(sink)@ + finding_reports(file, Phase::Body, self.findings@),
    {
        sink.push_findings(file, Phase::Body, &self.findings);
    }
}

/// Where the expressions of a body stand in the source, by their number.
#[derive(Debug, PartialEq, Eq)]
pub struct BodySourceMap {
    pub exprs: Vec<SyntaxNodePtr>,
}

} // verus!
