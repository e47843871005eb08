//! Severity classification for tagged unions.
//!
//! Given a model of an enum definition (its variants, their attributes and
//! payload shapes), this library decides for every variant whether its
//! severity is stated by a `report(..)` annotation, delegated to the payload's
//! own classification, or missing, and builds the dispatch that a generated
//! `error_level` method performs, together with the diagnostics that must fail
//! the build.
pub mod span;
pub mod level;
pub mod syntax;
pub mod diagnostic;
pub mod classify;
pub mod dispatch;
pub mod laws;

pub use level::{ErrorLevel, Severity};
