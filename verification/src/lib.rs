//! Detects uses of the "empty object" type: a structurally empty object-type
//! construct that accepts any non-nullish value, almost always an authoring
//! mistake. The host analysis engine discovers candidate sites during its
//! traversal and hands each one, together with the validated rule options, to
//! the classifier, which returns an `Allow` or `Report` verdict.

pub mod classifier;
pub mod diagnostics;
pub mod extends;
pub mod laws;
pub mod merge;
pub mod options;
pub mod pattern;
pub mod rule;
pub mod site;
