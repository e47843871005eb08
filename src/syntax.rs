//! A model of the enum definition that the syntax front end hands over.
//!
//! Only what the classification reads is kept: names, spans, attributes in
//! their parsed form, and the shape of each payload type.
use vstd::prelude::*;
use proc_macro2::Span;

verus! {

/// An identifier as written in the source, with its location.
pub struct Ident {
    pub name: String,
    pub span: Span,
}

/// A path in an attribute, such as `report` or `a::b`.
pub struct Path {
    /// Whether the path starts with `::`.
    pub leading_colon: bool,
    pub segments: Vec<Ident>,
}

/// One item of an attribute's argument list.
pub enum NestedMeta {
    /// A structured item (`warn`, `a::b`, `key = 1`, `f(..)`), by its path.
    Meta(Path),
    /// A literal such as `"text"` or `3`.
    Lit(Span),
}

/// An attribute of a variant, in parsed form.
pub enum Meta {
    /// A bare path: `#[non_exhaustive]`.
    Path(Path),
    /// A path with an argument list: `#[report(warn)]`.
    List { path: Path, nested: Vec<NestedMeta> },
    /// A path with a value: `#[doc = "..."]`.
    NameValue(Path),
}

/// One segment of a type path: its identifier and whether generic
/// arguments follow it (`Vec<T>`, `Fn(A) -> B`).
pub struct PathSegment {
    pub ident: Ident,
    pub has_arguments: bool,
}

/// The shape of a payload type.
pub enum TypeShape {
    /// A named type, plain (`Inner`) or qualified (`module::Inner`).
    Path { segments: Vec<PathSegment>, span: Span },
    /// A reference to another type: `&Inner`.
    Reference { elem: Box<TypeShape>, span: Span },
    /// A tuple type: `(String, String)`.
    Tuple { span: Span },
    /// Any other type: arrays, slices, function pointers, `impl Trait`, ...
    Other { span: Span },
}

/// The fields of a variant.
pub enum Fields {
    /// `Variant { a: A, .. }`
    Named,
    /// `Variant(A, ..)`: the types of its fields, in order.
    Unnamed(Vec<TypeShape>),
    /// `Variant`
    Unit,
}

/// One variant of the enum.
pub struct Variant {
    pub ident: Ident,
    pub attrs: Vec<Meta>,
    pub fields: Fields,
    /// The location of the whole variant.
    pub span: Span,
}

/// The enum definition that a dispatch is built for.
pub struct TypeDefinition {
    pub ident: Ident,
    pub variants: Vec<Variant>,
}

/// The identifier that a path consists of, if it is a single identifier.
pub open spec fn path_ident(p: Path) -> Option<Ident> {
    if !p.leading_colon && p.segments@.len() == 1 {
        Some(p.segments@[0])
    } else {
        None
    }
}

impl Ident {
    /// A copy of the identifier.
    pub fn copied(&self) -> (r: Ident)
        ensures
            r == *self,
    {
        Ident { name: self.name.clone(), span: self.span }
    }
}

impl Path {
    /// The single identifier that the path consists of, if it is one.
    pub fn get_ident(&self) -> (r: Option<&Ident>)
        ensures
            r is Some <==> path_ident(*self) is Some,
            r matches Some(i) ==> path_ident(*self) == Some(*i),
    {
        if !self.leading_colon && self.segments.len() == 1 {
            Some(&self.segments[0])
        } else {
            None
        }
    }
}

} // verus!
