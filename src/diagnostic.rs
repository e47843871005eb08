//! Diagnostics: configuration errors reported at the definition site.
use vstd::prelude::*;
use proc_macro2::Span;

verus! {

/// The kinds of configuration error that block a usable dispatch.
#[derive(Debug, Clone, Copy, PartialEq, Eq, Structural)]
pub enum DiagnosticKind {
    /// An annotation names a word outside `no, trace, debug, info, warn, error`.
    UnknownLevelKeyword,
    /// A variant has neither an annotation nor a payload to delegate to.
    MissingAnnotation,
    /// A variant has no annotation, and its payload's type cannot classify itself.
    IneligiblePayloadShape,
}

/// A configuration error, anchored to the source span that caused it.
pub struct Diagnostic {
    pub kind: DiagnosticKind,
    pub span: Span,
}

impl DiagnosticKind {
    /// The text that the build failure shows for this kind of error.
    pub fn message(&self) -> (r: &'static str)
        ensures
            *self == DiagnosticKind::UnknownLevelKeyword ==> r@
                == "invalid report level, use: no, trace, debug, info, warn or error"@,
            *self == DiagnosticKind::MissingAnnotation ==> r@ == "Needs 'report' attribute"@,
            *self == DiagnosticKind::IneligiblePayloadShape ==> r@
                == "Needs 'report' attribute, variant content can not have an 'ErrorLevel' trait implementation"@,
    {
        match self {
            DiagnosticKind::UnknownLevelKeyword => "invalid report level, use: no, trace, debug, info, warn or error",
            DiagnosticKind::MissingAnnotation => "Needs 'report' attribute",
            DiagnosticKind::IneligiblePayloadShape => "Needs 'report' attribute, variant content can not have an 'ErrorLevel' trait implementation",
        }
    }
}

} // verus!
