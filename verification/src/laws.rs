//! The rule's general guarantees, stated and proved over the classifier's
//! specification.

use vstd::prelude::*;
use crate::classifier::{classify_spec, Verdict};
use crate::options::RuleOptions;
use crate::pattern::regex_search;
use crate::site::{has_nonempty_members, site_name, CandidateSite};

verus! {

/// A verdict is a function of the site and the configured settings alone:
/// two option records carrying the same settings and the same pattern
/// source yield the same verdict on every site, however and whenever they
/// were built.
pub proof fn lemma_verdict_deterministic(site: CandidateSite, o1: RuleOptions, o2: RuleOptions)
    requires
        o1.raw() == o2.raw(),
    ensures
        classify_spec(site, o1) == classify_spec(site, o2),
{
}

/// A site with a non-empty member list is allowed, regardless of options.
pub proof fn lemma_nonempty_members_allowed(site: CandidateSite, options: RuleOptions)
    requires
        has_nonempty_members(site),
    ensures
        classify_spec(site, options) == Verdict::Allow,
{
}

/// An interface site with two or more extends entries is allowed,
/// regardless of options.
pub proof fn lemma_multiple_extends_allowed(site: CandidateSite, options: RuleOptions)
    requires
        site matches CandidateSite::InterfaceDeclaration { extends_list, .. }
            && extends_list@.len() >= 2,
    ensures
        classify_spec(site, options) == Verdict::Allow,
{
}

/// An object-type literal standing in an intersection is allowed,
/// regardless of options.
pub proof fn lemma_intersection_member_allowed(site: CandidateSite, options: RuleOptions)
    requires
        site matches CandidateSite::InlineTypeLiteral { enclosing_shape, .. }
            && enclosing_shape is IntersectionMember,
    ensures
        classify_spec(site, options) == Verdict::Allow,
{
}

/// One half of the name-exemption guarantee: the `allowWithName` option
/// never reaches an inline literal. Its verdict is settled by its members,
/// its enclosing shape and `allowObjectTypes` alone — even when the union
/// or intersection it stands in is the value of an alias whose name the
/// pattern would match.
pub proof fn lemma_inline_literal_ignores_name_option(
    site: CandidateSite,
    o1: RuleOptions,
    o2: RuleOptions,
)
    requires
        site is InlineTypeLiteral,
        o1.allow_object_types == o2.allow_object_types,
    ensures
        classify_spec(site, o1) == classify_spec(site, o2),
{
}

/// The other half of the name-exemption guarantee: a declaration — an
/// interface, or a type alias (whose value, when it is the empty literal,
/// is purely that literal) — whose declared name the configured pattern
/// matches is allowed.
pub proof fn lemma_matching_name_allows_declaration(site: CandidateSite, options: RuleOptions)
    requires
        !(site is InlineTypeLiteral),
        options.pattern_source() matches Some(pattern) && regex_search(pattern, site_name(site)),
    ensures
        classify_spec(site, options) == Verdict::Allow,
{
}

} // verus!
