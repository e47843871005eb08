//! Source locations, carried through unchanged from the syntax front end.
use vstd::prelude::*;

verus! {

/// A region of source code. The library never looks inside a span: it only
/// carries spans from the definition it reads to the diagnostics and dispatch
/// arms it produces.
#[verifier::external_type_specification]
#[verifier::external_body]
pub struct ExSpan(proc_macro2::Span);

/// Relies on `proc_macro2::Span::join`: it either covers both spans or gives
/// `None`, depending on the compiler it runs in; nothing is promised of it.
pub assume_specification[ proc_macro2::Span::join ](s: &proc_macro2::Span, other: proc_macro2::Span) -> (r: Option<proc_macro2::Span>);

} // verus!
