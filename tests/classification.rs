use error_level::classify::{
    classify_variant, has_inner, has_level_path, is_valid_inner, with_log_level, Classification,
};
use error_level::diagnostic::DiagnosticKind;
use error_level::dispatch::{impl_error_level, ArmBody, Dispatch};
use error_level::level::{Level, LevelVariant};
use error_level::syntax::{
    Fields, Ident, Meta, NestedMeta, Path, PathSegment, TypeDefinition, TypeShape, Variant,
};
use error_level::{ErrorLevel, Severity};
use proc_macro2::Span;

fn ident(name: &str) -> Ident {
    Ident { name: name.to_string(), span: Span::call_site() }
}

fn path(name: &str) -> Path {
    Path { leading_colon: false, segments: vec![ident(name)] }
}

fn report(word: &str) -> Meta {
    Meta::List { path: path("report"), nested: vec![NestedMeta::Meta(path(word))] }
}

fn segment(name: &str, has_arguments: bool) -> PathSegment {
    PathSegment { ident: ident(name), has_arguments }
}

fn named_type(segments: &[&str]) -> TypeShape {
    TypeShape::Path {
        segments: segments.iter().map(|s| segment(s, false)).collect(),
        span: Span::call_site(),
    }
}

fn unit(name: &str, attrs: Vec<Meta>) -> Variant {
    Variant { ident: ident(name), attrs, fields: Fields::Unit, span: Span::call_site() }
}

fn newtype(name: &str, attrs: Vec<Meta>, ty: TypeShape) -> Variant {
    Variant {
        ident: ident(name),
        attrs,
        fields: Fields::Unnamed(vec![ty]),
        span: Span::call_site(),
    }
}

fn build(name: &str, variants: Vec<Variant>) -> Dispatch {
    impl_error_level(&TypeDefinition { ident: ident(name), variants })
}

fn level(d: &Dispatch, variant: &str, inner: Option<Severity>) -> Option<Option<Severity>> {
    d.error_level_of(&variant.to_string(), inner)
}

#[test]
fn keywords_parse_to_their_levels() {
    let cases = [
        ("no", LevelVariant::No),
        ("trace", LevelVariant::Trace),
        ("debug", LevelVariant::Debug),
        ("info", LevelVariant::Info),
        ("warn", LevelVariant::Warn),
        ("error", LevelVariant::Error),
    ];
    for (word, expected) in cases {
        match Level::from_ident(&ident(word)) {
            Level::Parsed(v) => assert_eq!(v, expected),
            Level::Error(_) => panic!("{} should parse", word),
        }
    }
    assert_eq!(LevelVariant::No.severity(), None);
    assert_eq!(LevelVariant::Trace.severity(), Some(Severity::Trace));
    assert_eq!(LevelVariant::Debug.severity(), Some(Severity::Debug));
    assert_eq!(LevelVariant::Info.severity(), Some(Severity::Info));
    assert_eq!(LevelVariant::Warn.severity(), Some(Severity::Warn));
    assert_eq!(LevelVariant::Error.severity(), Some(Severity::Error));
}

#[test]
fn keywords_are_case_sensitive() {
    for word in ["Warn", "INFO", "No", "loud", "", "warning"] {
        assert!(matches!(Level::from_ident(&ident(word)), Level::Error(_)), "{}", word);
    }
}

#[test]
fn warn_without_payload_is_warn() {
    let d = build("E", vec![unit("A", vec![report("warn")])]);
    assert!(d.is_usable());
    assert_eq!(level(&d, "A", None), Some(Some(Severity::Warn)));
    assert!(!d.arms[0].with_payload);
}

#[test]
fn no_suppresses_with_and_without_payload() {
    let d = build(
        "E",
        vec![
            unit("A", vec![report("no")]),
            newtype("B", vec![report("no")], named_type(&["Inner"])),
            newtype("C", vec![report("no")], TypeShape::Tuple { span: Span::call_site() }),
        ],
    );
    assert!(d.is_usable());
    assert_eq!(level(&d, "A", None), Some(None));
    assert_eq!(level(&d, "B", Some(Severity::Error)), Some(None));
    assert_eq!(level(&d, "C", Some(Severity::Error)), Some(None));
}

#[test]
fn delegation_forwards_at_any_depth() {
    let innermost = build("Leaf", vec![unit("L", vec![report("debug")])]);
    let middle = build("Mid", vec![newtype("M", vec![], named_type(&["Leaf"]))]);
    let outer = build("Top", vec![newtype("T", vec![], named_type(&["crate", "Mid"]))]);
    let leaf = level(&innermost, "L", None).unwrap();
    let mid = level(&middle, "M", leaf).unwrap();
    assert_eq!(level(&outer, "T", mid), Some(Some(Severity::Debug)));
    for inner in [None, Some(Severity::Trace), Some(Severity::Error)] {
        assert_eq!(level(&outer, "T", inner), Some(inner));
    }
}

#[test]
fn missing_annotation_is_rejected() {
    let d = build("E", vec![unit("A", vec![report("warn")]), unit("B", vec![])]);
    assert_eq!(d.arms.len(), 1);
    assert_eq!(d.diagnostics.len(), 1);
    assert_eq!(d.diagnostics[0].kind, DiagnosticKind::MissingAnnotation);
    assert_eq!(level(&d, "B", None), None);
    assert!(!d.is_usable());
}

#[test]
fn tuple_payload_is_rejected() {
    let d = build("E", vec![newtype("P", vec![], TypeShape::Tuple { span: Span::call_site() })]);
    assert_eq!(d.arms.len(), 0);
    assert_eq!(d.diagnostics.len(), 1);
    assert_eq!(d.diagnostics[0].kind, DiagnosticKind::IneligiblePayloadShape);
    assert!(!d.is_usable());
}

#[test]
fn annotation_takes_precedence_over_payload() {
    let d = build("E", vec![newtype("A", vec![report("info")], named_type(&["Inner"]))]);
    assert!(d.is_usable());
    for inner in [None, Some(Severity::Trace), Some(Severity::Error)] {
        assert_eq!(level(&d, "A", inner), Some(Some(Severity::Info)));
    }
    assert!(matches!(d.arms[0].body, ArmBody::Fixed(Level::Parsed(LevelVariant::Info))));
    assert!(d.arms[0].with_payload);
}

#[test]
fn unknown_keyword_is_rejected() {
    let d = build("E", vec![unit("A", vec![report("loud")]), unit("B", vec![report("warn")])]);
    assert_eq!(d.arms.len(), 2);
    assert!(matches!(d.arms[0].body, ArmBody::Fixed(Level::Error(_))));
    assert_eq!(level(&d, "A", None), None);
    assert_eq!(level(&d, "B", None), Some(Some(Severity::Warn)));
    assert!(d.diagnostics.is_empty());
    assert!(!d.is_usable());
}

#[test]
fn end_to_end() {
    let other = build("OtherType", vec![unit("Only", vec![report("info")])]);
    let d = build(
        "T",
        vec![
            unit("A", vec![report("warn")]),
            unit("B", vec![report("info")]),
            unit("C", vec![report("no")]),
            newtype("D", vec![], named_type(&["OtherType"])),
        ],
    );
    assert!(d.is_usable());
    assert_eq!(d.name.name, "T");
    let names: Vec<&str> = d.arms.iter().map(|a| a.variant.name.as_str()).collect();
    assert_eq!(names, vec!["A", "B", "C", "D"]);
    let inner = level(&other, "Only", None).unwrap();
    assert_eq!(level(&d, "A", None), Some(Some(Severity::Warn)));
    assert_eq!(level(&d, "B", None), Some(Some(Severity::Info)));
    assert_eq!(level(&d, "C", None), Some(None));
    assert_eq!(level(&d, "D", inner), Some(Some(Severity::Info)));
    assert_eq!(level(&d, "E", None), None);
}

#[test]
fn payload_shapes() {
    let reference = TypeShape::Reference {
        elem: Box::new(named_type(&["a", "b", "Inner"])),
        span: Span::call_site(),
    };
    assert!(is_valid_inner(&reference).is_ok());
    assert!(is_valid_inner(&named_type(&["Inner"])).is_ok());
    let generic = TypeShape::Path {
        segments: vec![segment("HashMap", true)],
        span: Span::call_site(),
    };
    assert!(is_valid_inner(&generic).is_err());
    let qualified_generic = TypeShape::Path {
        segments: vec![segment("std", false), segment("Vec", true)],
        span: Span::call_site(),
    };
    assert!(is_valid_inner(&qualified_generic).is_err());
    let ref_to_tuple = TypeShape::Reference {
        elem: Box::new(TypeShape::Tuple { span: Span::call_site() }),
        span: Span::call_site(),
    };
    assert!(is_valid_inner(&ref_to_tuple).is_err());
    let ref_to_ref = TypeShape::Reference {
        elem: Box::new(TypeShape::Reference {
            elem: Box::new(named_type(&["Inner"])),
            span: Span::call_site(),
        }),
        span: Span::call_site(),
    };
    assert!(is_valid_inner(&ref_to_ref).is_err());
    assert!(is_valid_inner(&TypeShape::Other { span: Span::call_site() }).is_err());
    assert!(is_valid_inner(&TypeShape::Path { segments: vec![], span: Span::call_site() }).is_err());
}

#[test]
fn payload_is_first_unnamed_field() {
    let named = Variant {
        ident: ident("N"),
        attrs: vec![],
        fields: Fields::Named,
        span: Span::call_site(),
    };
    assert!(has_inner(&named).is_none());
    assert!(has_inner(&unit("U", vec![])).is_none());
    let empty = Variant {
        ident: ident("Z"),
        attrs: vec![],
        fields: Fields::Unnamed(vec![]),
        span: Span::call_site(),
    };
    assert!(has_inner(&empty).is_none());
    let two = Variant {
        ident: ident("T"),
        attrs: vec![],
        fields: Fields::Unnamed(vec![named_type(&["Inner"]), TypeShape::Tuple { span: Span::call_site() }]),
        span: Span::call_site(),
    };
    assert!(matches!(has_inner(&two), Some(TypeShape::Path { .. })));
    assert!(matches!(classify_variant(&two), Classification::Delegated(_)));
    assert!(matches!(
        classify_variant(&named),
        Classification::Invalid(g) if g.kind == DiagnosticKind::MissingAnnotation
    ));
}

#[test]
fn annotation_lookup() {
    assert!(has_level_path(&path("report")));
    assert!(!has_level_path(&path("level")));
    assert!(!has_level_path(&Path { leading_colon: true, segments: vec![ident("report")] }));
    assert!(!has_level_path(&Path {
        leading_colon: false,
        segments: vec![ident("x"), ident("report")],
    }));
    let v = unit(
        "A",
        vec![
            Meta::NameValue(path("doc")),
            Meta::Path(path("report")),
            Meta::List { path: path("error"), nested: vec![NestedMeta::Lit(Span::call_site())] },
            report("trace"),
            report("error"),
        ],
    );
    assert!(matches!(with_log_level(&v), Some(Level::Parsed(LevelVariant::Trace))));
    assert!(with_log_level(&unit("B", vec![Meta::Path(path("report"))])).is_none());
    assert!(matches!(
        classify_variant(&v),
        Classification::ExplicitNoPayload(Level::Parsed(LevelVariant::Trace))
    ));
}

#[test]
fn diagnostic_messages() {
    assert_eq!(
        DiagnosticKind::UnknownLevelKeyword.message(),
        "invalid report level, use: no, trace, debug, info, warn or error"
    );
    assert_eq!(DiagnosticKind::MissingAnnotation.message(), "Needs 'report' attribute");
    assert_eq!(
        DiagnosticKind::IneligiblePayloadShape.message(),
        "Needs 'report' attribute, variant content can not have an 'ErrorLevel' trait implementation"
    );
}

#[derive(Debug)]
enum Handwritten {
    Quiet,
    Loud,
}

impl ErrorLevel for Handwritten {
    fn error_level(&self) -> Option<Severity> {
        match self {
            Handwritten::Quiet => None,
            Handwritten::Loud => Some(Severity::Warn),
        }
    }
}

#[test]
fn trait_can_be_implemented_by_hand() {
    assert_eq!(Handwritten::Quiet.error_level(), None);
    assert_eq!(Handwritten::Loud.error_level(), Some(Severity::Warn));
}
