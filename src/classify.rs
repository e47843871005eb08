//! The variant classifier: annotation lookup, payload shape validation, and
//! the decision between an explicit, a delegated and an invalid severity.
use vstd::prelude::*;
use proc_macro2::Span;
use crate::diagnostic::{Diagnostic, DiagnosticKind};
use crate::level::{Level, level_of};
use crate::syntax::{Fields, Ident, Meta, NestedMeta, Path, PathSegment, TypeShape, Variant, path_ident};

verus! {

/// The path is the single identifier `report`.
pub open spec fn is_report_path(p: Path) -> bool {
    path_ident(p) matches Some(id) && id.name@ == "report"@
}

/// The attribute is an argument list under `report`: `#[report(..)]`.
pub open spec fn is_report_list(m: Meta) -> bool {
    m matches Meta::List { path, .. } && is_report_path(path)
}

/// The index of the first `report(..)` attribute at or after `i`.
pub open spec fn first_report(attrs: Seq<Meta>, i: int) -> Option<int>
    decreases attrs.len() - i,
{
    if i < 0 || i >= attrs.len() {
        None
    } else if is_report_list(attrs[i]) {
        Some(i)
    } else {
        first_report(attrs, i + 1)
    }
}

/// The keyword of an argument list: its first item, when that item is a
/// single identifier.
pub open spec fn list_keyword(m: Meta) -> Option<Ident> {
    match m {
        Meta::List { nested, .. } => {
            if nested@.len() > 0 {
                match nested@[0] {
                    NestedMeta::Meta(p) => path_ident(p),
                    NestedMeta::Lit(_) => None,
                }
            } else {
                None
            }
        },
        _ => None,
    }
}

/// The keyword of a variant's annotation: that of its first `report(..)`
/// attribute. Later `report(..)` attributes are not read.
pub open spec fn annotation(attrs: Seq<Meta>) -> Option<Ident> {
    match first_report(attrs, 0) {
        Some(i) => list_keyword(attrs[i]),
        None => None,
    }
}

/// The parsed keyword of a variant's annotation.
pub open spec fn annotation_level(attrs: Seq<Meta>) -> Option<Level> {
    match annotation(attrs) {
        Some(k) => Some(level_of(k)),
        None => None,
    }
}

/// A `report(..)` annotation, where there is one, starts with a single
/// identifier (`report(warn)`, not `report()` or `report("warn")`).
pub open spec fn annotation_well_formed(attrs: Seq<Meta>) -> bool {
    first_report(attrs, 0) matches Some(i) ==> list_keyword(attrs[i]) is Some
}

/// Whether an attribute path is the single identifier `report`.
pub fn has_level_path(p: &Path) -> (r: bool)
    ensures
        r == is_report_path(*p),
{
    match p.get_ident() {
        Some(ident) => ident.name == String::from_str("report"),
        None => false,
    }
}

/// Whether the variant's `report(..)` annotation, if it has one, starts
/// with a single identifier.
pub fn is_annotation_well_formed(attrs: &Vec<Meta>) -> (r: bool)
    ensures
        r == annotation_well_formed(attrs@),
{
    let mut i: usize = 0;
    while i < attrs.len()
        invariant
            0 <= i <= attrs@.len(),
            first_report(attrs@, 0) == first_report(attrs@, i as int),
        decreases attrs@.len() - i,
    {
        if let Meta::List { path, nested } = &attrs[i] {
            if has_level_path(path) {
                if nested.len() == 0 {
                    return false;
                }
                return match &nested[0] {
                    NestedMeta::Meta(p) => p.get_ident().is_some(),
                    NestedMeta::Lit(_) => false,
                };
            }
        }
        i += 1;
    }
    true
}

/// The parsed keyword of the variant's annotation, if it has one.
pub fn with_log_level(v: &Variant) -> (r: Option<Level>)
    requires
        annotation_well_formed(v.attrs@),
    ensures
        r == annotation_level(v.attrs@),
{
    let mut i: usize = 0;
    while i < v.attrs.len()
        invariant
            0 <= i <= v.attrs@.len(),
            annotation_well_formed(v.attrs@),
            first_report(v.attrs@, 0) == first_report(v.attrs@, i as int),
        decreases v.attrs@.len() - i,
    {
        if let Meta::List { path, nested } = &v.attrs[i] {
            if has_level_path(path) {
                return match &nested[0] {
                    NestedMeta::Meta(p) => match p.get_ident() {
                        Some(ident) => Some(Level::from_ident(ident)),
                        None => None,
                    },
                    NestedMeta::Lit(_) => None,
                };
            }
        }
        i += 1;
    }
    None
}

/// The type of the variant's payload: its first unnamed field.
pub open spec fn payload(f: Fields) -> Option<TypeShape> {
    match f {
        Fields::Unnamed(ts) => {
            if ts@.len() > 0 {
                Some(ts@[0])
            } else {
                None
            }
        },
        _ => None,
    }
}

/// The type of the variant's payload, if it has one.
pub fn has_inner(v: &Variant) -> (r: Option<&TypeShape>)
    ensures
        r is Some <==> payload(v.fields) is Some,
        r matches Some(t) ==> payload(v.fields) == Some(*t),
{
    match &v.fields {
        Fields::Unnamed(ts) => {
            if ts.len() > 0 {
                Some(&ts[0])
            } else {
                None
            }
        },
        _ => None,
    }
}

/// A path of plain names: at least one segment, none with generic arguments.
pub open spec fn plain_path(segments: Seq<PathSegment>) -> bool {
    &&& segments.len() > 0
    &&& forall|j: int| 0 <= j < segments.len() ==> !(#[trigger] segments[j]).has_arguments
}

/// The named type that a payload delegates to, if its shape allows
/// delegation: a plain or qualified name, possibly behind one reference.
pub open spec fn delegate_path(t: TypeShape) -> Option<Seq<PathSegment>> {
    match t {
        TypeShape::Path { segments, .. } => {
            if plain_path(segments@) {
                Some(segments@)
            } else {
                None
            }
        },
        TypeShape::Reference { elem, .. } => match *elem {
            TypeShape::Path { segments, .. } => {
                if plain_path(segments@) {
                    Some(segments@)
                } else {
                    None
                }
            },
            _ => None,
        },
        _ => None,
    }
}

/// The payload type can be asked for its own classification.
pub open spec fn eligible(t: TypeShape) -> bool {
    delegate_path(t) is Some
}

/// The span of a whole payload type, where an ineligible one is reported.
pub open spec fn shape_span(t: TypeShape) -> Span {
    match t {
        TypeShape::Path { span, .. } => span,
        TypeShape::Reference { span, .. } => span,
        TypeShape::Tuple { span } => span,
        TypeShape::Other { span } => span,
    }
}

/// The span that a delegating arm is anchored to: for an unqualified name,
/// that name's span; for a qualified one, the join of its first and last
/// segments where the compiler can join them, else the last segment's.
pub open spec fn delegate_span_fits(segments: Seq<PathSegment>, s: Span) -> bool {
    segments.len() == 1 ==> s == segments[0].ident.span
}

/// Whether every segment of the path is a plain name.
fn is_plain_path(segments: &Vec<PathSegment>) -> (r: bool)
    ensures
        r == plain_path(segments@),
{
    if segments.len() == 0 {
        return false;
    }
    let mut j: usize = 0;
    while j < segments.len()
        invariant
            0 <= j <= segments@.len(),
            forall|k: int| 0 <= k < j ==> !(#[trigger] segments@[k]).has_arguments,
        decreases segments@.len() - j,
    {
        if segments[j].has_arguments {
            return false;
        }
        j += 1;
    }
    true
}

/// The span of a plain path, as a delegating arm is anchored to it.
fn handle_path(segments: &Vec<PathSegment>) -> (r: Span)
    requires
        plain_path(segments@),
    ensures
        delegate_span_fits(segments@, r),
{
    let n = segments.len();
    if n > 1 {
        let span_begin = segments[0].ident.span;
        let span_end = segments[n - 1].ident.span;
        match span_begin.join(span_end) {
            Some(joined) => joined,
            None => span_end,
        }
    } else {
        segments[0].ident.span
    }
}

/// Checks that a payload type can classify itself. `Ok` holds the span of
/// the delegation; `Err` the span of the rejected type.
pub fn is_valid_inner(ty: &TypeShape) -> (r: Result<Span, Span>)
    ensures
        r is Ok <==> eligible(*ty),
        r matches Ok(s) ==> delegate_span_fits(delegate_path(*ty)->0, s),
        !eligible(*ty) ==> r == Err::<Span, Span>(shape_span(*ty)),
{
    match ty {
        TypeShape::Path { segments, span } => {
            if is_plain_path(segments) {
                Ok(handle_path(segments))
            } else {
                Err(*span)
            }
        },
        TypeShape::Reference { elem, span } => match &**elem {
            TypeShape::Path { segments, .. } => {
                if is_plain_path(segments) {
                    Ok(handle_path(segments))
                } else {
                    Err(*span)
                }
            },
            _ => Err(*span),
        },
        TypeShape::Tuple { span } => Err(*span),
        TypeShape::Other { span } => Err(*span),
    }
}

} // verus!

verus! {

/// What a variant's severity comes from.
pub enum Classification {
    /// An annotation, on a variant without payload.
    ExplicitNoPayload(Level),
    /// An annotation, on a variant whose payload is not looked at.
    ExplicitWithPayload(Level),
    /// The payload's own classification; the span anchors the delegating call.
    Delegated(Span),
    /// Nothing: the variant is reported as a configuration error.
    Invalid(Diagnostic),
}

/// `c` is the classification of variant `v`. An annotation always decides;
/// without one an eligible payload is delegated to, and anything else is an
/// error: a missing annotation, or a payload shape that cannot classify itself.
pub open spec fn classified_as(v: Variant, c: Classification) -> bool {
    match annotation_level(v.attrs@) {
        Some(l) => {
            if payload(v.fields) is Some {
                c == Classification::ExplicitWithPayload(l)
            } else {
                c == Classification::ExplicitNoPayload(l)
            }
        },
        None => match payload(v.fields) {
            Some(t) => {
                if eligible(t) {
                    c matches Classification::Delegated(s) && delegate_span_fits(delegate_path(t)->0, s)
                } else {
                    c == Classification::Invalid(
                        Diagnostic { kind: DiagnosticKind::IneligiblePayloadShape, span: shape_span(t) },
                    )
                }
            },
            None => c == Classification::Invalid(
                Diagnostic { kind: DiagnosticKind::MissingAnnotation, span: v.span },
            ),
        },
    }
}

/// Classifies one variant.
pub fn classify_variant(v: &Variant) -> (r: Classification)
    requires
        annotation_well_formed(v.attrs@),
    ensures
        classified_as(*v, r),
{
    if let Some(level) = with_log_level(v) {
        if has_inner(v).is_some() {
            Classification::ExplicitWithPayload(level)
        } else {
            Classification::ExplicitNoPayload(level)
        }
    } else if let Some(inner) = has_inner(v) {
        match is_valid_inner(inner) {
            Ok(span) => Classification::Delegated(span),
            Err(span) => Classification::Invalid(
                Diagnostic { kind: DiagnosticKind::IneligiblePayloadShape, span },
            ),
        }
    } else {
        Classification::Invalid(Diagnostic { kind: DiagnosticKind::MissingAnnotation, span: v.span })
    }
}

} // verus!
