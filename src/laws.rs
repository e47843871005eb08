//! What every generated dispatch satisfies, proved from the contracts of the
//! classifier and the synthesizer.
use vstd::prelude::*;
use crate::classify::{annotation, annotation_level, eligible, payload, shape_span};
use crate::diagnostic::{Diagnostic, DiagnosticKind};
use crate::dispatch::{
    Arm, ArmBody, Dispatch, arm_fits, arm_named, arms_fit, diagnostics_of, dispatch_fits,
    dispatch_result, distinct_names, has_arm, usable, variant_diagnostic,
};
use crate::level::{Level, LevelVariant, Severity, keyword};
use crate::syntax::{TypeDefinition, Variant};

verus! {

/// What the dispatch yields for an instance of variant `v` whose payload
/// classifies itself as `inner`: the annotation's level where there is one,
/// else `inner` where the payload can be delegated to, else nothing.
pub open spec fn variant_result(v: Variant, inner: Option<Severity>) -> Option<Option<Severity>> {
    match annotation_level(v.attrs@) {
        Some(Level::Parsed(k)) => Some(k.spec_severity()),
        Some(Level::Error(_)) => None,
        None => {
            if payload(v.fields) matches Some(t) && eligible(t) {
                Some(inner)
            } else {
                None
            }
        },
    }
}

proof fn lemma_arm_named_absent(vs: Seq<Variant>, arms: Seq<Arm>, n: Seq<char>)
    requires
        arms_fit(vs, arms),
        forall|j: int| 0 <= j < vs.len() ==> (#[trigger] vs[j]).ident.name@ != n,
    ensures
        arm_named(arms, n) is None,
    decreases vs.len(),
{
    if vs.len() > 0 {
        assert(forall|j: int|
            0 <= j < vs.drop_last().len() ==> vs.drop_last()[j] == #[trigger] vs[j]);
        if has_arm(vs.last()) {
            lemma_arm_named_absent(vs.drop_last(), arms.drop_last(), n);
        } else {
            lemma_arm_named_absent(vs.drop_last(), arms, n);
        }
    }
}

proof fn lemma_arm_named_member(arms: Seq<Arm>, n: Seq<char>)
    ensures
        arm_named(arms, n) matches Some(a) ==> arms.contains(a),
    decreases arms.len(),
{
    if arms.len() > 0 {
        lemma_arm_named_member(arms.drop_last(), n);
        if let Some(a) = arm_named(arms.drop_last(), n) {
            let j = choose|j: int| 0 <= j < arms.drop_last().len() && arms.drop_last()[j] == a;
            assert(arms[j] == a);
        } else {
            assert(arms[arms.len() - 1] == arms.last());
        }
    }
}

proof fn lemma_arm_lookup(vs: Seq<Variant>, arms: Seq<Arm>, i: int)
    requires
        arms_fit(vs, arms),
        distinct_names(vs),
        0 <= i < vs.len(),
    ensures
        has_arm(vs[i]) ==> (arm_named(arms, vs[i].ident.name@) matches Some(a) && arm_fits(vs[i], a)),
        !has_arm(vs[i]) ==> arm_named(arms, vs[i].ident.name@) is None,
    decreases vs.len(),
{
    let n = vs[i].ident.name@;
    let rest = vs.drop_last();
    let arms_rest = if has_arm(vs.last()) {
        arms.drop_last()
    } else {
        arms
    };
    assert(forall|j: int| 0 <= j < rest.len() ==> rest[j] == #[trigger] vs[j]);
    assert(distinct_names(rest));
    if i < vs.len() - 1 {
        lemma_arm_lookup(rest, arms_rest, i);
        assert(vs.last().ident.name@ != n) by {
            assert(vs[vs.len() - 1] == vs.last());
        }
    } else {
        assert forall|j: int| 0 <= j < rest.len() implies (#[trigger] rest[j]).ident.name@ != n by {
            assert(vs[j] == rest[j]);
        }
        lemma_arm_named_absent(rest, arms_rest, n);
    }
}

proof fn lemma_diagnostic_present(vs: Seq<Variant>, i: int)
    requires
        0 <= i < vs.len(),
    ensures
        variant_diagnostic(vs[i]) matches Some(d) ==> diagnostics_of(vs).contains(d),
    decreases vs.len(),
{
    let rest = vs.drop_last();
    if i < vs.len() - 1 {
        assert(rest[i] == vs[i]);
        lemma_diagnostic_present(rest, i);
        if let Some(d) = variant_diagnostic(vs[i]) {
            let j = choose|j: int| 0 <= j < diagnostics_of(rest).len() && diagnostics_of(rest)[j] == d;
            assert(diagnostics_of(vs)[j] == d);
        }
    } else {
        assert(vs.last() == vs[i]);
        if let Some(d) = variant_diagnostic(vs[i]) {
            assert(diagnostics_of(vs)[diagnostics_of(vs).len() - 1] == d);
        }
    }
}

/// The dispatch generated for a type yields, for an instance of each
/// variant, exactly what the variant's annotation or payload calls for; a
/// variant without an arm leaves its diagnostic, and the dispatch unusable.
pub proof fn lemma_variant_result(def: TypeDefinition, d: Dispatch, i: int, inner: Option<Severity>)
    requires
        dispatch_fits(def, d),
        distinct_names(def.variants@),
        0 <= i < def.variants@.len(),
    ensures
        dispatch_result(d, def.variants@[i].ident.name@, inner) == variant_result(
            def.variants@[i],
            inner,
        ),
        variant_diagnostic(def.variants@[i]) matches Some(g) ==> d.diagnostics@.contains(g),
        variant_result(def.variants@[i], inner) is None ==> !usable(d),
{
    let vs = def.variants@;
    let v = vs[i];
    lemma_arm_lookup(vs, d.arms@, i);
    lemma_diagnostic_present(vs, i);
    lemma_arm_named_member(d.arms@, v.ident.name@);
    if !has_arm(v) {
        let g = variant_diagnostic(v)->0;
        assert(d.diagnostics@.contains(g));
    } else if let Some(a) = arm_named(d.arms@, v.ident.name@) {
        if a.body matches ArmBody::Fixed(Level::Error(_)) {
            let j = choose|j: int| 0 <= j < d.arms@.len() && d.arms@[j] == a;
            assert(d.arms@[j].body matches ArmBody::Fixed(Level::Error(_)));
        }
    }
}

/// A variant annotated `warn` without a payload is reported at `Warn`.
pub proof fn law_warn_without_payload(def: TypeDefinition, d: Dispatch, i: int, inner: Option<Severity>)
    requires
        dispatch_fits(def, d),
        distinct_names(def.variants@),
        0 <= i < def.variants@.len(),
        annotation(def.variants@[i].attrs@) matches Some(k) && k.name@ == "warn"@,
        payload(def.variants@[i].fields) is None,
    ensures
        dispatch_result(d, def.variants@[i].ident.name@, inner) == Some(Some(Severity::Warn)),
{
    lemma_variant_result(def, d, i, inner);
    reveal_strlit("no");
    reveal_strlit("trace");
    reveal_strlit("debug");
    reveal_strlit("info");
    reveal_strlit("warn");
    assert("warn"@[0] != "no"@[0] && "warn"@[0] != "trace"@[0] && "warn"@[0] != "debug"@[0]
        && "warn"@[0] != "info"@[0]);
    assert(keyword("warn"@) == Some(LevelVariant::Warn));
}

/// A variant annotated `no` is never reported, whether or not it has a
/// payload, and whatever that payload's own classification.
pub proof fn law_no_suppresses(def: TypeDefinition, d: Dispatch, i: int, inner: Option<Severity>)
    requires
        dispatch_fits(def, d),
        distinct_names(def.variants@),
        0 <= i < def.variants@.len(),
        annotation(def.variants@[i].attrs@) matches Some(k) && k.name@ == "no"@,
    ensures
        dispatch_result(d, def.variants@[i].ident.name@, inner) == Some(None::<Severity>),
{
    lemma_variant_result(def, d, i, inner);
    assert(keyword("no"@) == Some(LevelVariant::No));
}

/// A variant without annotation whose payload is an eligible named type
/// yields exactly the payload's own classification, whatever it is; since
/// that classification may itself be delegated, this holds at any depth.
pub proof fn law_delegation_forwards(def: TypeDefinition, d: Dispatch, i: int, inner: Option<Severity>)
    requires
        dispatch_fits(def, d),
        distinct_names(def.variants@),
        0 <= i < def.variants@.len(),
        annotation(def.variants@[i].attrs@) is None,
        payload(def.variants@[i].fields) matches Some(t) && eligible(t),
    ensures
        dispatch_result(d, def.variants@[i].ident.name@, inner) == Some(inner),
{
    lemma_variant_result(def, d, i, inner);
}

/// A variant with neither annotation nor payload gets no arm; it is reported
/// as a missing annotation at its own span, and the dispatch is not usable.
pub proof fn law_missing_annotation(def: TypeDefinition, d: Dispatch, i: int, inner: Option<Severity>)
    requires
        dispatch_fits(def, d),
        distinct_names(def.variants@),
        0 <= i < def.variants@.len(),
        annotation(def.variants@[i].attrs@) is None,
        payload(def.variants@[i].fields) is None,
    ensures
        dispatch_result(d, def.variants@[i].ident.name@, inner) is None,
        d.diagnostics@.contains(
            (Diagnostic { kind: DiagnosticKind::MissingAnnotation, span: def.variants@[i].span }),
        ),
        !usable(d),
{
    lemma_variant_result(def, d, i, inner);
}

/// A variant without annotation whose payload is a tuple gets no arm; it is
/// reported as an ineligible payload shape at the tuple's span, and the
/// dispatch is not usable.
pub proof fn law_tuple_payload_rejected(def: TypeDefinition, d: Dispatch, i: int, inner: Option<Severity>)
    requires
        dispatch_fits(def, d),
        distinct_names(def.variants@),
        0 <= i < def.variants@.len(),
        annotation(def.variants@[i].attrs@) is None,
        payload(def.variants@[i].fields) matches Some(t) && t is Tuple,
    ensures
        dispatch_result(d, def.variants@[i].ident.name@, inner) is None,
        d.diagnostics@.contains(
            (Diagnostic {
                kind: DiagnosticKind::IneligiblePayloadShape,
                span: shape_span(payload(def.variants@[i].fields)->0),
            }),
        ),
        !usable(d),
{
    lemma_variant_result(def, d, i, inner);
}

/// An annotation takes precedence over the payload: a variant annotated
/// `info` is reported at `Info` whatever its payload classifies itself as,
/// even where that payload could be delegated to.
pub proof fn law_annotation_precedence(def: TypeDefinition, d: Dispatch, i: int, inner: Option<Severity>)
    requires
        dispatch_fits(def, d),
        distinct_names(def.variants@),
        0 <= i < def.variants@.len(),
        annotation(def.variants@[i].attrs@) matches Some(k) && k.name@ == "info"@,
        payload(def.variants@[i].fields) matches Some(t) && eligible(t),
    ensures
        dispatch_result(d, def.variants@[i].ident.name@, inner) == Some(Some(Severity::Info)),
{
    lemma_variant_result(def, d, i, inner);
    reveal_strlit("no");
    reveal_strlit("trace");
    reveal_strlit("debug");
    reveal_strlit("info");
    assert("info"@[0] != "no"@[0] && "info"@[0] != "trace"@[0] && "info"@[0] != "debug"@[0]);
    assert(keyword("info"@) == Some(LevelVariant::Info));
}

/// An annotation whose keyword is outside the vocabulary yields no severity
/// at all: its arm is a compile error at the keyword's span, and the dispatch
/// is not usable.
pub proof fn law_unknown_keyword_rejected(def: TypeDefinition, d: Dispatch, i: int, inner: Option<Severity>)
    requires
        dispatch_fits(def, d),
        distinct_names(def.variants@),
        0 <= i < def.variants@.len(),
        annotation(def.variants@[i].attrs@) matches Some(k) && keyword(k.name@) is None,
    ensures
        dispatch_result(d, def.variants@[i].ident.name@, inner) is None,
        arm_named(d.arms@, def.variants@[i].ident.name@) matches Some(a) && a.body == ArmBody::Fixed(
            Level::Error(annotation(def.variants@[i].attrs@)->0.span),
        ),
        !usable(d),
{
    lemma_variant_result(def, d, i, inner);
    lemma_arm_lookup(def.variants@, d.arms@, i);
}

} // verus!
