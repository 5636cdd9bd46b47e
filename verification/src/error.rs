//! Structured errors of the compile and link pipeline.

use crate::shader::StageKind;
use vstd::prelude::*;

verus! {

/// What the shader pipeline can fail with. Compile and link failures carry
/// the raw diagnostic log the driver reported; they are never retried here.
#[derive(Debug, PartialEq, Eq)]
pub enum RenderError {
    /// The driver rejected one stage's source text.
    CompileError { kind: StageKind, log: String },
    /// The driver rejected the link of an otherwise compiled program.
    LinkError { log: String },
    /// A source string held an interior nul byte, so it could never have
    /// been handed to the driver in the first place.
    NulInSource { kind: StageKind },
}

} // verus!
