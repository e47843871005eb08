//! The dispatch synthesizer: from the classified variants to the arms of the
//! generated `error_level` method and the diagnostics that go with it.
use vstd::prelude::*;
use proc_macro2::Span;
use crate::classify::{
    Classification, annotation_level, annotation_well_formed, classify_variant, is_annotation_well_formed, delegate_path,
    delegate_span_fits, eligible, payload, shape_span,
};
use crate::diagnostic::{Diagnostic, DiagnosticKind};
use crate::level::{Level, Severity};
use crate::syntax::{Ident, TypeDefinition, Variant};

verus! {

/// What an arm of the generated dispatch yields.
pub enum ArmBody {
    /// The level of an annotation; a compile error where its keyword is unknown.
    Fixed(Level),
    /// The payload's own classification, through a call anchored at the span.
    Delegate(Span),
}

/// One arm of the generated dispatch: `Type::Variant => ..` or
/// `Type::Variant(inner) => ..`.
pub struct Arm {
    pub variant: Ident,
    /// Whether the arm's pattern matches a payload.
    pub with_payload: bool,
    pub body: ArmBody,
}

/// The generated dispatch of one type: its arms in declaration order of the
/// variants they stand for, and the diagnostics emitted beside it.
pub struct Dispatch {
    pub name: Ident,
    pub arms: Vec<Arm>,
    pub diagnostics: Vec<Diagnostic>,
}

/// The variant gets an arm: it is annotated, or its payload can be delegated to.
pub open spec fn has_arm(v: Variant) -> bool {
    ||| annotation_level(v.attrs@) is Some
    ||| payload(v.fields) matches Some(t) && eligible(t)
}

/// `a` is the arm that variant `v` gets.
pub open spec fn arm_fits(v: Variant, a: Arm) -> bool {
    &&& a.variant == v.ident
    &&& a.with_payload == (payload(v.fields) is Some)
    &&& match annotation_level(v.attrs@) {
        Some(l) => a.body == ArmBody::Fixed(l),
        None => match payload(v.fields) {
            Some(t) => {
                &&& eligible(t)
                &&& a.body matches ArmBody::Delegate(s)
                &&& delegate_span_fits(delegate_path(t)->0, s)
            },
            None => false,
        },
    }
}

/// The diagnostic that a variant without an arm is reported with.
pub open spec fn variant_diagnostic(v: Variant) -> Option<Diagnostic> {
    if has_arm(v) {
        None
    } else {
        match payload(v.fields) {
            Some(t) => Some(Diagnostic { kind: DiagnosticKind::IneligiblePayloadShape, span: shape_span(t) }),
            None => Some(Diagnostic { kind: DiagnosticKind::MissingAnnotation, span: v.span }),
        }
    }
}

/// `arms` are the arms of the variants `vs` that get one, in their order.
pub open spec fn arms_fit(vs: Seq<Variant>, arms: Seq<Arm>) -> bool
    decreases vs.len(),
{
    if vs.len() == 0 {
        arms.len() == 0
    } else if has_arm(vs.last()) {
        &&& arms.len() > 0
        &&& arm_fits(vs.last(), arms.last())
        &&& arms_fit(vs.drop_last(), arms.drop_last())
    } else {
        arms_fit(vs.drop_last(), arms)
    }
}

/// The diagnostics of the variants `vs`, in their order.
pub open spec fn diagnostics_of(vs: Seq<Variant>) -> Seq<Diagnostic>
    decreases vs.len(),
{
    if vs.len() == 0 {
        Seq::empty()
    } else {
        match variant_diagnostic(vs.last()) {
            Some(d) => diagnostics_of(vs.drop_last()).push(d),
            None => diagnostics_of(vs.drop_last()),
        }
    }
}

/// Every annotation of the variants is well formed.
pub open spec fn all_well_formed(vs: Seq<Variant>) -> bool {
    forall|i: int| 0 <= i < vs.len() ==> annotation_well_formed((#[trigger] vs[i]).attrs@)
}

/// No two variants share a name, as in any enum that compiles.
pub open spec fn distinct_names(vs: Seq<Variant>) -> bool {
    forall|i: int, j: int|
        0 <= i < j < vs.len() ==> (#[trigger] vs[i]).ident.name@ != (#[trigger] vs[j]).ident.name@
}

/// `d` is the dispatch generated for `def`.
pub open spec fn dispatch_fits(def: TypeDefinition, d: Dispatch) -> bool {
    &&& d.name == def.ident
    &&& arms_fit(def.variants@, d.arms@)
    &&& d.diagnostics@ == diagnostics_of(def.variants@)
}

/// The first arm whose pattern names the variant `n`.
pub open spec fn arm_named(arms: Seq<Arm>, n: Seq<char>) -> Option<Arm>
    decreases arms.len(),
{
    if arms.len() == 0 {
        None
    } else {
        match arm_named(arms.drop_last(), n) {
            Some(a) => Some(a),
            None => {
                if arms.last().variant.name@ == n {
                    Some(arms.last())
                } else {
                    None
                }
            },
        }
    }
}

/// What an arm yields when the payload classifies itself as `inner`:
/// `Some(level)`, or `None` where the arm is a compile error.
pub open spec fn arm_result(a: Arm, inner: Option<Severity>) -> Option<Option<Severity>> {
    match a.body {
        ArmBody::Fixed(Level::Parsed(k)) => Some(k.spec_severity()),
        ArmBody::Fixed(Level::Error(_)) => None,
        ArmBody::Delegate(_) => Some(inner),
    }
}

/// What the generated dispatch yields for an instance of variant `n` whose
/// payload, if asked, classifies itself as `inner`. `None`: no arm yields a
/// severity for it, and the build of the type fails.
pub open spec fn dispatch_result(d: Dispatch, n: Seq<char>, inner: Option<Severity>) -> Option<
    Option<Severity>,
> {
    match arm_named(d.arms@, n) {
        Some(a) => arm_result(a, inner),
        None => None,
    }
}

/// The dispatch can be used: no diagnostic, and no arm with an unknown keyword.
pub open spec fn usable(d: Dispatch) -> bool {
    &&& d.diagnostics@.len() == 0
    &&& forall|j: int|
        0 <= j < d.arms@.len() ==> !((#[trigger] d.arms@[j]).body matches ArmBody::Fixed(
            Level::Error(_),
        ))
}

/// Classifies every variant, in declaration order: the arms of those that
/// get one, and the diagnostics of those that do not.
pub fn extract_variants(variants: &Vec<Variant>) -> (r: (Vec<Arm>, Vec<Diagnostic>))
    requires
        all_well_formed(variants@),
    ensures
        arms_fit(variants@, r.0@),
        r.1@ == diagnostics_of(variants@),
{
    let mut arms: Vec<Arm> = Vec::new();
    let mut errs: Vec<Diagnostic> = Vec::new();
    let mut i: usize = 0;
    while i < variants.len()
        invariant
            0 <= i <= variants@.len(),
            all_well_formed(variants@),
            arms_fit(variants@.take(i as int), arms@),
            errs@ == diagnostics_of(variants@.take(i as int)),
        decreases variants@.len() - i,
    {
        let v = &variants[i];
        assert(annotation_well_formed(variants@[i as int].attrs@));
        let ghost arms_before = arms@;
        match classify_variant(v) {
            Classification::ExplicitNoPayload(level) => {
                arms.push(Arm { variant: v.ident.copied(), with_payload: false, body: ArmBody::Fixed(level) });
            },
            Classification::ExplicitWithPayload(level) => {
                arms.push(Arm { variant: v.ident.copied(), with_payload: true, body: ArmBody::Fixed(level) });
            },
            Classification::Delegated(span) => {
                arms.push(Arm { variant: v.ident.copied(), with_payload: true, body: ArmBody::Delegate(span) });
            },
            Classification::Invalid(d) => {
                errs.push(d);
            },
        }
        proof {
            let vs = variants@.take(i + 1);
            assert(vs.drop_last() =~= variants@.take(i as int));
            assert(vs.last() == variants@[i as int]);
            if arms@.len() > arms_before.len() {
                assert(arms@.drop_last() =~= arms_before);
            }
        }
        i += 1;
    }
    assert(variants@.take(variants@.len() as int) =~= variants@);
    (arms, errs)
}

/// Whether the annotation of every variant is well formed.
pub fn annotations_well_formed(variants: &Vec<Variant>) -> (r: bool)
    ensures
        r == all_well_formed(variants@),
{
    let mut i: usize = 0;
    while i < variants.len()
        invariant
            0 <= i <= variants@.len(),
            forall|k: int| 0 <= k < i ==> annotation_well_formed((#[trigger] variants@[k]).attrs@),
        decreases variants@.len() - i,
    {
        if !is_annotation_well_formed(&variants[i].attrs) {
            return false;
        }
        i += 1;
    }
    true
}

/// Builds the dispatch of a type definition.
pub fn impl_error_level(def: &TypeDefinition) -> (d: Dispatch)
    requires
        all_well_formed(def.variants@),
    ensures
        dispatch_fits(*def, d),
{
    let (arms, diagnostics) = extract_variants(&def.variants);
    Dispatch { name: def.ident.copied(), arms, diagnostics }
}

/// Once an arm names `n` within `arms.take(j)`, the same arm is the first
/// to name it in all of `arms`.
proof fn lemma_arm_named_prefix(arms: Seq<Arm>, j: int, n: Seq<char>)
    requires
        0 <= j <= arms.len(),
        arm_named(arms.take(j), n) is Some,
    ensures
        arm_named(arms, n) == arm_named(arms.take(j), n),
    decreases arms.len(),
{
    if j == arms.len() {
        assert(arms.take(j) =~= arms);
    } else {
        assert(arms.drop_last().take(j) =~= arms.take(j));
        lemma_arm_named_prefix(arms.drop_last(), j, n);
    }
}

impl Dispatch {
    /// Runs the dispatch on an instance of the variant named `variant`, whose
    /// payload, if asked, classifies itself as `inner`. `None` where no arm
    /// yields a severity for it.
    pub fn error_level_of(&self, variant: &String, inner: Option<Severity>) -> (r: Option<
        Option<Severity>,
    >)
        ensures
            r == dispatch_result(*self, variant@, inner),
    {
        let mut j: usize = 0;
        while j < self.arms.len()
            invariant
                0 <= j <= self.arms@.len(),
                arm_named(self.arms@.take(j as int), variant@) is None,
            decreases self.arms@.len() - j,
        {
            let arm = &self.arms[j];
            proof {
                let t = self.arms@.take(j + 1);
                assert(t.drop_last() =~= self.arms@.take(j as int));
                assert(t.last() == self.arms@[j as int]);
            }
            if arm.variant.name == *variant {
                proof {
                    lemma_arm_named_prefix(self.arms@, j + 1, variant@);
                }
                return match &arm.body {
                    ArmBody::Fixed(Level::Parsed(k)) => Some(k.severity()),
                    ArmBody::Fixed(Level::Error(_)) => None,
                    ArmBody::Delegate(_) => Some(inner),
                };
            }
            j += 1;
        }
        assert(self.arms@.take(self.arms@.len() as int) =~= self.arms@);
        None
    }

    /// Whether the dispatch can be used: no diagnostic, and no arm with an
    /// unknown keyword.
    pub fn is_usable(&self) -> (r: bool)
        ensures
            r == usable(*self),
    {
        if self.diagnostics.len() > 0 {
            return false;
        }
        let mut j: usize = 0;
        while j < self.arms.len()
            invariant
                0 <= j <= self.arms@.len(),
                forall|k: int|
                    0 <= k < j ==> !((#[trigger] self.arms@[k]).body matches ArmBody::Fixed(
                        Level::Error(_),
                    )),
            decreases self.arms@.len() - j,
        {
            if let ArmBody::Fixed(Level::Error(_)) = &self.arms[j].body {
                return false;
            }
            j += 1;
        }
        true
    }
}

} // verus!
