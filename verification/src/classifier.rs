//! The decision engine: consumes one candidate site plus the active options
//! and returns a verdict. Classification is total and side-effect free; a
//! verdict is a pure function of the site and the configured option values.

use vstd::prelude::*;
use crate::extends::{spec_resolve_extends_target, resolve_extends_target, ExtendsTarget};
use crate::merge::{find_merged_class, scope_has_merged_class};
use crate::options::{AllowInterfaces, AllowObjectTypes, RuleOptions};
use crate::pattern::regex_search;
use crate::site::{AliasValue, CandidateSite, EnclosingShape, Span};

verus! {

/// The outcome of classifying one candidate site. A `Report` carries the
/// source range of the offending construct; it is a user-visible finding,
/// not an error, and never halts the broader analysis run.
#[derive(Clone, Copy, Debug, PartialEq, Eq, Structural)]
pub enum Verdict {
    Allow,
    Report(Span),
}

/// Whether a pattern is configured and matches anywhere within `name`.
pub open spec fn name_exempt(pattern: Option<Seq<char>>, name: Seq<char>) -> bool {
    pattern matches Some(p) && regex_search(p, name)
}

/// The verdict for one site under the given settings.
///
/// In order: a site with members is allowed (triviality gate); a declared
/// name matching the configured pattern is allowed; then one rule per kind
/// of site. An interface extending two or more bases is always allowed (the
/// idiomatic substitute for a union type); one extending a single
/// parameterized base is reported unless `allowInterfaces` is `Always`; one
/// extending a single plain base is allowed under `WithSingleExtends` only
/// when a same-named class declaration stands in the same scope. An alias
/// whose value is directly the empty literal, and an empty literal in any
/// other position, are reported unless `allowObjectTypes` is `Always` —
/// except a literal standing in an intersection, which is always allowed
/// (the recognized idiom for "any non-nullish value"). An alias whose value
/// is not directly a literal is allowed: whatever is nested inside it is
/// discovered as a site of its own.
pub open spec fn classify_with(
    site: CandidateSite,
    allow_interfaces: AllowInterfaces,
    allow_object_types: AllowObjectTypes,
    pattern: Option<Seq<char>>,
) -> Verdict {
    match site {
        CandidateSite::InterfaceDeclaration { name, member_count, extends_list, scope, span } => {
            if member_count > 0 {
                Verdict::Allow
            } else if name_exempt(pattern, name@) {
                Verdict::Allow
            } else if extends_list@.len() >= 2 {
                Verdict::Allow
            } else if allow_interfaces is Always {
                Verdict::Allow
            } else if extends_list@.len() == 0 {
                Verdict::Report(span)
            } else {
                match spec_resolve_extends_target(extends_list@[0]) {
                    ExtendsTarget::ParameterizedRef => Verdict::Report(span),
                    ExtendsTarget::PlainInterfaceRef { .. } => {
                        if allow_interfaces is WithSingleExtends && scope_has_merged_class(
                            scope,
                            name@,
                        ) {
                            Verdict::Allow
                        } else {
                            Verdict::Report(span)
                        }
                    },
                }
            }
        },
        CandidateSite::TypeAliasDeclaration { name, value, span } => {
            match value {
                AliasValue::ObjectTypeLiteral { member_count } => {
                    if member_count > 0 {
                        Verdict::Allow
                    } else if name_exempt(pattern, name@) {
                        Verdict::Allow
                    } else if allow_object_types is Always {
                        Verdict::Allow
                    } else {
                        Verdict::Report(span)
                    }
                },
                AliasValue::OtherType => Verdict::Allow,
            }
        },
        CandidateSite::InlineTypeLiteral { member_count, enclosing_shape, span } => {
            if member_count > 0 {
                Verdict::Allow
            } else if enclosing_shape is IntersectionMember {
                Verdict::Allow
            } else if allow_object_types is Always {
                Verdict::Allow
            } else {
                Verdict::Report(span)
            }
        },
    }
}

/// The verdict for one site under the given option record.
pub open spec fn classify_spec(site: CandidateSite, options: RuleOptions) -> Verdict {
    classify_with(
        site,
        options.allow_interfaces,
        options.allow_object_types,
        options.pattern_source(),
    )
}

/// Whether the site carries a declared name matching the configured pattern.
fn matches_configured_name(options: &RuleOptions, name: &String) -> (found: bool)
    ensures
        found == name_exempt(options.pattern_source(), name@),
{
    match &options.allow_with_name {
        Some(pattern) => pattern.is_match(name.as_str()),
        None => false,
    }
}

/// Classifies one candidate site under the active options.
pub fn classify(site: &CandidateSite, options: &RuleOptions) -> (verdict: Verdict)
    ensures
        verdict == classify_spec(*site, *options),
{
    match site {
        CandidateSite::InterfaceDeclaration { name, member_count, extends_list, scope, span } => {
            if *member_count > 0 {
                Verdict::Allow
            } else if matches_configured_name(options, name) {
                Verdict::Allow
            } else if extends_list.len() >= 2 {
                Verdict::Allow
            } else if options.allow_interfaces == AllowInterfaces::Always {
                Verdict::Allow
            } else if extends_list.len() == 0 {
                Verdict::Report(*span)
            } else {
                match resolve_extends_target(&extends_list[0]) {
                    ExtendsTarget::ParameterizedRef => Verdict::Report(*span),
                    ExtendsTarget::PlainInterfaceRef { .. } => {
                        if options.allow_interfaces == AllowInterfaces::WithSingleExtends
                            && find_merged_class(scope, name) {
                            Verdict::Allow
                        } else {
                            Verdict::Report(*span)
                        }
                    },
                }
            }
        },
        CandidateSite::TypeAliasDeclaration { name, value, span } => {
            match value {
                AliasValue::ObjectTypeLiteral { member_count } => {
                    if *member_count > 0 {
                        Verdict::Allow
                    } else if matches_configured_name(options, name) {
                        Verdict::Allow
                    } else if options.allow_object_types == AllowObjectTypes::Always {
                        Verdict::Allow
                    } else {
                        Verdict::Report(*span)
                    }
                },
                AliasValue::OtherType => Verdict::Allow,
            }
        },
        CandidateSite::InlineTypeLiteral { member_count, enclosing_shape, span } => {
            if *member_count > 0 {
                Verdict::Allow
            } else if *enclosing_shape == EnclosingShape::IntersectionMember {
                Verdict::Allow
            } else if options.allow_object_types == AllowObjectTypes::Always {
                Verdict::Allow
            } else {
                Verdict::Report(*span)
            }
        },
    }
}

} // verus!
