//! The finding handed to the host's diagnostic sink for a reported site:
//! a fixed message, a fixed help text, and the site's source range.

use vstd::prelude::*;
use crate::site::Span;

verus! {

/// One finding of this rule.
#[derive(Debug)]
pub struct RuleDiagnostic {
    pub span: Span,
    pub message: String,
    pub help: String,
}

/// Builds the finding for one reported site.
pub fn no_empty_object_type_diagnostic(span: Span) -> (diagnostic: RuleDiagnostic)
    ensures
        diagnostic.span == span,
        diagnostic.message@ == "Disallow accidentally using the \"empty object\" type."@,
        diagnostic.help@
            == "To avoid confusion around the {} type allowing any non-nullish value, this rule bans usage of the {} type."@,
{
    RuleDiagnostic {
        span,
        message: "Disallow accidentally using the \"empty object\" type.".to_owned(),
        help:
            "To avoid confusion around the {} type allowing any non-nullish value, this rule bans usage of the {} type.".to_owned(),
    }
}

} // verus!
