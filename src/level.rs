//! The severity vocabulary and the parser of annotation keywords.
use vstd::prelude::*;
use proc_macro2::Span;
use crate::syntax::Ident;

verus! {

/// How urgently an instance is reported. The absence of a severity
/// (`None` where an `Option<Severity>` is expected) means "never report".
#[derive(Debug, Clone, Copy, PartialEq, Eq, Structural)]
pub enum Severity {
    Trace,
    Debug,
    Info,
    Warn,
    Error,
}

/// A value that knows the severity at which it is to be reported. The
/// dispatch built by this library is the body of an implementation of it.
pub trait ErrorLevel {
    /// The severity at which this value is reported; `None`: never.
    fn error_level(&self) -> Option<Severity>;
}

/// A keyword of the annotation vocabulary: `no` or one of the severities.
#[derive(Debug, Clone, Copy, PartialEq, Eq, Structural)]
pub enum LevelVariant {
    No,
    Trace,
    Debug,
    Info,
    Warn,
    Error,
}

impl LevelVariant {
    /// The severity that the keyword selects; `None` for `no`.
    pub open spec fn spec_severity(self) -> Option<Severity> {
        match self {
            LevelVariant::No => None,
            LevelVariant::Trace => Some(Severity::Trace),
            LevelVariant::Debug => Some(Severity::Debug),
            LevelVariant::Info => Some(Severity::Info),
            LevelVariant::Warn => Some(Severity::Warn),
            LevelVariant::Error => Some(Severity::Error),
        }
    }

    /// The severity that the keyword selects; `None` for `no`.
    pub fn severity(&self) -> (r: Option<Severity>)
        ensures
            r == self.spec_severity(),
    {
        match self {
            LevelVariant::No => None,
            LevelVariant::Trace => Some(Severity::Trace),
            LevelVariant::Debug => Some(Severity::Debug),
            LevelVariant::Info => Some(Severity::Info),
            LevelVariant::Warn => Some(Severity::Warn),
            LevelVariant::Error => Some(Severity::Error),
        }
    }
}

/// The keyword that a word of an annotation names, if it is one of
/// `no`, `trace`, `debug`, `info`, `warn`, `error` (exactly, case included).
pub open spec fn keyword(s: Seq<char>) -> Option<LevelVariant> {
    if s == "no"@ {
        Some(LevelVariant::No)
    } else if s == "trace"@ {
        Some(LevelVariant::Trace)
    } else if s == "debug"@ {
        Some(LevelVariant::Debug)
    } else if s == "info"@ {
        Some(LevelVariant::Info)
    } else if s == "warn"@ {
        Some(LevelVariant::Warn)
    } else if s == "error"@ {
        Some(LevelVariant::Error)
    } else {
        None
    }
}

/// The outcome of parsing an annotation keyword.
pub enum Level {
    /// A keyword of the vocabulary.
    Parsed(LevelVariant),
    /// A word outside the vocabulary, at this location.
    Error(Span),
}

/// What parsing the identifier `id` as an annotation keyword gives.
pub open spec fn level_of(id: Ident) -> Level {
    match keyword(id.name@) {
        Some(v) => Level::Parsed(v),
        None => Level::Error(id.span),
    }
}

impl Level {
    /// Parses the keyword of a `report(..)` annotation. A word outside the
    /// vocabulary gives an error at the word's location.
    pub fn from_ident(id: &Ident) -> (r: Level)
        ensures
            r == level_of(*id),
    {
        let name = &id.name;
        if *name == String::from_str("no") {
            Level::Parsed(LevelVariant::No)
        } else if *name == String::from_str("trace") {
            Level::Parsed(LevelVariant::Trace)
        } else if *name == String::from_str("debug") {
            Level::Parsed(LevelVariant::Debug)
        } else if *name == String::from_str("info") {
            Level::Parsed(LevelVariant::Info)
        } else if *name == String::from_str("warn") {
            Level::Parsed(LevelVariant::Warn)
        } else if *name == String::from_str("error") {
            Level::Parsed(LevelVariant::Error)
        } else {
            Level::Error(id.span)
        }
    }
}

} // verus!
