// Site-level checks of the classifier: each case builds the candidate site a
// host engine would discover for the quoted source text and asserts the
// verdict the rule owes it.

use no_empty_object_type::classifier::Verdict;
use no_empty_object_type::extends::{ExtendsEntry, ExtendsTarget, resolve_extends_target};
use no_empty_object_type::merge::find_merged_class;
use no_empty_object_type::options::{
    AllowInterfaces, AllowObjectTypes, RuleOptions,
};
use no_empty_object_type::pattern::NamePattern;
use no_empty_object_type::rule::NoEmptyObjectType;
use no_empty_object_type::site::{
    AliasValue, CandidateSite, DeclarationKind, EnclosingShape, Scope, ScopeDeclaration, Span,
};

fn span() -> Span {
    Span { start: 3, end: 20 }
}

fn empty_scope() -> Scope {
    Scope { declarations: Vec::new() }
}

fn scope_of(declarations: Vec<(&str, DeclarationKind)>) -> Scope {
    Scope {
        declarations: declarations
            .into_iter()
            .map(|(name, kind)| ScopeDeclaration { name: name.to_string(), kind })
            .collect(),
    }
}

fn interface(name: &str, member_count: usize, extends: Vec<ExtendsEntry>, scope: Scope) -> CandidateSite {
    CandidateSite::InterfaceDeclaration {
        name: name.to_string(),
        member_count,
        extends_list: extends,
        scope,
        span: span(),
    }
}

fn plain_extends(name: &str) -> ExtendsEntry {
    ExtendsEntry { name: name.to_string(), type_argument_count: 0 }
}

fn parameterized_extends(name: &str, type_argument_count: usize) -> ExtendsEntry {
    ExtendsEntry { name: name.to_string(), type_argument_count }
}

fn alias(name: &str, value: AliasValue) -> CandidateSite {
    CandidateSite::TypeAliasDeclaration { name: name.to_string(), value, span: span() }
}

fn literal(member_count: usize, enclosing_shape: EnclosingShape) -> CandidateSite {
    CandidateSite::InlineTypeLiteral { member_count, enclosing_shape, span: span() }
}

fn options(
    allow_interfaces: AllowInterfaces,
    allow_object_types: AllowObjectTypes,
    allow_with_name: Option<&str>,
) -> RuleOptions {
    RuleOptions {
        allow_interfaces,
        allow_object_types,
        allow_with_name: allow_with_name.map(|source| NamePattern::compile(source).unwrap()),
    }
}

fn run(site: &CandidateSite, options: &RuleOptions) -> Verdict {
    NoEmptyObjectType.run(site, options)
}

// `interface Base {}` under default options.
#[test]
fn empty_interface_default_reports() {
    let verdict = run(&interface("Base", 0, vec![], empty_scope()), &RuleOptions::default());
    assert_eq!(verdict, Verdict::Report(span()));
}

// `interface Base {}` under `allowInterfaces: "never"`.
#[test]
fn empty_interface_never_reports() {
    let opts = options(AllowInterfaces::Never, AllowObjectTypes::Never, None);
    assert_eq!(run(&interface("Base", 0, vec![], empty_scope()), &opts), Verdict::Report(span()));
}

// `interface Base {}` under `allowInterfaces: "always"`.
#[test]
fn empty_interface_always_allowed() {
    let opts = options(AllowInterfaces::Always, AllowObjectTypes::Never, None);
    assert_eq!(run(&interface("Base", 0, vec![], empty_scope()), &opts), Verdict::Allow);
}

// `interface Base { name: string; }`: a member list with one member.
#[test]
fn interface_with_members_allowed() {
    assert_eq!(run(&interface("Base", 1, vec![], empty_scope()), &RuleOptions::default()), Verdict::Allow);
}

// `interface Both extends Base, Derived {}`: multiple extension is the
// idiomatic substitute for a union type.
#[test]
fn interface_with_two_extends_allowed() {
    let site = interface(
        "Both",
        0,
        vec![plain_extends("Base"), plain_extends("Derived")],
        empty_scope(),
    );
    assert_eq!(run(&site, &RuleOptions::default()), Verdict::Allow);
}

// `interface Derived extends Base {}` beside `class Derived {}` in the same
// scope, under `allowInterfaces: "with-single-extends"`: declaration merging.
#[test]
fn single_extends_with_merged_class_allowed() {
    let scope = scope_of(vec![
        ("Base", DeclarationKind::OtherDeclaration),
        ("Derived", DeclarationKind::ClassDeclaration),
    ]);
    let site = interface("Derived", 0, vec![plain_extends("Base")], scope);
    let opts = options(AllowInterfaces::WithSingleExtends, AllowObjectTypes::Never, None);
    assert_eq!(run(&site, &opts), Verdict::Allow);
}

// The same site beside `class Other {}` instead: no same-name class, so no
// merge and no exemption.
#[test]
fn single_extends_without_merged_class_reports() {
    let scope = scope_of(vec![
        ("Base", DeclarationKind::OtherDeclaration),
        ("Other", DeclarationKind::ClassDeclaration),
    ]);
    let site = interface("Derived", 0, vec![plain_extends("Base")], scope);
    let opts = options(AllowInterfaces::WithSingleExtends, AllowObjectTypes::Never, None);
    assert_eq!(run(&site, &opts), Verdict::Report(span()));
}

// `interface Derived extends Base {}` under `with-single-extends` with no
// class declaration anywhere in the scope: the exemption is merge-based, so
// a single plain extends entry without a same-scope same-name class
// declaration is still reported.
#[test]
fn single_extends_without_any_class_reports() {
    let scope = scope_of(vec![("Base", DeclarationKind::OtherDeclaration)]);
    let site = interface("Derived", 0, vec![plain_extends("Base")], scope);
    let opts = options(AllowInterfaces::WithSingleExtends, AllowObjectTypes::Never, None);
    assert_eq!(run(&site, &opts), Verdict::Report(span()));
}

// `const derived = class Derived {};`: a class expression bound to a
// variable is not a class declaration statement, so it cannot merge.
#[test]
fn class_expression_binding_does_not_merge() {
    let scope = scope_of(vec![
        ("Base", DeclarationKind::OtherDeclaration),
        ("derived", DeclarationKind::OtherDeclaration),
    ]);
    let site = interface("Derived", 0, vec![plain_extends("Base")], scope);
    let opts = options(AllowInterfaces::WithSingleExtends, AllowObjectTypes::Never, None);
    assert_eq!(run(&site, &opts), Verdict::Report(span()));
}

// `interface Derived extends Base {}` beside `class Derived {}` under
// default options: the merge exemption must be asked for.
#[test]
fn merged_class_without_option_reports() {
    let scope = scope_of(vec![("Derived", DeclarationKind::ClassDeclaration)]);
    let site = interface("Derived", 0, vec![plain_extends("Base")], scope);
    assert_eq!(run(&site, &RuleOptions::default()), Verdict::Report(span()));
}

// `interface Base extends Array<number> {}`: a parameterized extends target
// is never exemptible via `with-single-extends`.
#[test]
fn parameterized_extends_reports() {
    let site = interface("Base", 0, vec![parameterized_extends("Array", 1)], empty_scope());
    assert_eq!(run(&site, &RuleOptions::default()), Verdict::Report(span()));
    let opts = options(AllowInterfaces::WithSingleExtends, AllowObjectTypes::Never, None);
    assert_eq!(run(&site, &opts), Verdict::Report(span()));
}

// `interface Base<T> extends Derived<T> {}`: forwarding to another generic
// interface is parameterized too.
#[test]
fn generic_forwarding_extends_reports() {
    let site = interface("Base", 0, vec![parameterized_extends("Derived", 1)], empty_scope());
    assert_eq!(run(&site, &RuleOptions::default()), Verdict::Report(span()));
}

// `interface Base extends Array<number> {}` under `allowInterfaces:
// "always"`: `always` exempts every empty interface.
#[test]
fn parameterized_extends_always_allowed() {
    let site = interface("Base", 0, vec![parameterized_extends("Array", 1)], empty_scope());
    let opts = options(AllowInterfaces::Always, AllowObjectTypes::Never, None);
    assert_eq!(run(&site, &opts), Verdict::Allow);
}

// `interface Base {}` under `allowWithName: "Base"`.
#[test]
fn interface_matching_name_allowed() {
    let opts = options(AllowInterfaces::Never, AllowObjectTypes::Never, Some("Base"));
    assert_eq!(run(&interface("Base", 0, vec![], empty_scope()), &opts), Verdict::Allow);
}

// `interface BaseProps {}` under `allowWithName: "Props$"`: the anchor
// behaves as an ordinary regex anchor, so `Props$` matches `BaseProps`.
#[test]
fn interface_name_suffix_pattern_allowed() {
    let opts = options(AllowInterfaces::Never, AllowObjectTypes::Never, Some("Props$"));
    assert_eq!(run(&interface("BaseProps", 0, vec![], empty_scope()), &opts), Verdict::Allow);
}

// `interface PropsX {}` under `allowWithName: "Props$"`: the anchor keeps
// the pattern from matching a name that merely contains `Props`.
#[test]
fn interface_name_suffix_pattern_misses() {
    let opts = options(AllowInterfaces::Never, AllowObjectTypes::Never, Some("Props$"));
    assert_eq!(run(&interface("PropsX", 0, vec![], empty_scope()), &opts), Verdict::Report(span()));
}

// `interface Base {}` under `allowWithName: ".*Props$"`.
#[test]
fn interface_mismatching_pattern_reports() {
    let opts = options(AllowInterfaces::Never, AllowObjectTypes::Never, Some(".*Props$"));
    assert_eq!(run(&interface("Base", 0, vec![], empty_scope()), &opts), Verdict::Report(span()));
}

// `type Base = {};` under default options.
#[test]
fn empty_alias_default_reports() {
    let site = alias("Base", AliasValue::ObjectTypeLiteral { member_count: 0 });
    assert_eq!(run(&site, &RuleOptions::default()), Verdict::Report(span()));
}

// `type Base = {};` under `allowObjectTypes: "always"`.
#[test]
fn empty_alias_object_types_always_allowed() {
    let site = alias("Base", AliasValue::ObjectTypeLiteral { member_count: 0 });
    let opts = options(AllowInterfaces::Never, AllowObjectTypes::Always, None);
    assert_eq!(run(&site, &opts), Verdict::Allow);
}

// `type Base = {};` under `allowWithName: "Base"`, then under
// `allowWithName: "Mismatch"`.
#[test]
fn alias_name_exemption_depends_on_match() {
    let site = alias("Base", AliasValue::ObjectTypeLiteral { member_count: 0 });
    let matching = options(AllowInterfaces::Never, AllowObjectTypes::Never, Some("Base"));
    assert_eq!(run(&site, &matching), Verdict::Allow);
    let mismatching = options(AllowInterfaces::Never, AllowObjectTypes::Never, Some("Mismatch"));
    assert_eq!(run(&site, &mismatching), Verdict::Report(span()));
}

// `type BaseProps = {};` under `allowWithName: "Props$"`.
#[test]
fn alias_name_suffix_pattern_allowed() {
    let site = alias("BaseProps", AliasValue::ObjectTypeLiteral { member_count: 0 });
    let opts = options(AllowInterfaces::Never, AllowObjectTypes::Never, Some("Props$"));
    assert_eq!(run(&site, &opts), Verdict::Allow);
}

// `type MyNonNullable<T> = T & {};`: the empty literal stands in an
// intersection, the recognized idiom for "any non-nullish value".
#[test]
fn intersection_member_allowed() {
    let site = literal(0, EnclosingShape::IntersectionMember);
    assert_eq!(run(&site, &RuleOptions::default()), Verdict::Allow);
}

// `type MyUnion<T> = T | {};`: a union member is reported.
#[test]
fn union_member_reports() {
    let site = literal(0, EnclosingShape::UnionMember);
    assert_eq!(run(&site, &RuleOptions::default()), Verdict::Report(span()));
}

// `type Base = {} | null;` under `allowWithName: "Base"`: the literal is a
// union member, so the alias's matching name grants it nothing; the alias
// site itself is not an object-type literal and is left alone.
#[test]
fn union_member_of_named_alias_still_reports() {
    let opts = options(AllowInterfaces::Never, AllowObjectTypes::Never, Some("Base"));
    assert_eq!(run(&literal(0, EnclosingShape::UnionMember), &opts), Verdict::Report(span()));
    assert_eq!(run(&alias("Base", AliasValue::OtherType), &opts), Verdict::Allow);
}

// `let value: {};` under default options and under `allowObjectTypes:
// "never"`.
#[test]
fn annotation_literal_reports() {
    let site = literal(0, EnclosingShape::OtherPosition);
    assert_eq!(run(&site, &RuleOptions::default()), Verdict::Report(span()));
    let opts = options(AllowInterfaces::Never, AllowObjectTypes::Never, None);
    assert_eq!(run(&site, &opts), Verdict::Report(span()));
}

// `let value: { /* ... */ };`: comments do not count as members.
#[test]
fn annotation_literal_with_comment_reports() {
    let site = literal(0, EnclosingShape::OtherPosition);
    assert_eq!(run(&site, &RuleOptions::default()), Verdict::Report(span()));
}

// `let value: { inner: true };`: one member suffices.
#[test]
fn annotation_literal_with_member_allowed() {
    let site = literal(1, EnclosingShape::OtherPosition);
    assert_eq!(run(&site, &RuleOptions::default()), Verdict::Allow);
}

// `let value: {};` under `allowObjectTypes: "always"`.
#[test]
fn annotation_literal_object_types_always_allowed() {
    let site = literal(0, EnclosingShape::OtherPosition);
    let opts = options(AllowInterfaces::Never, AllowObjectTypes::Always, None);
    assert_eq!(run(&site, &opts), Verdict::Allow);
}

// A literal standing directly as an alias value, handed over as the bare
// literal node: it carries no name, so only `allowObjectTypes` reaches it.
#[test]
fn direct_alias_value_literal_reports() {
    let site = literal(0, EnclosingShape::DirectAliasValue);
    let opts = options(AllowInterfaces::Never, AllowObjectTypes::Never, Some("Base"));
    assert_eq!(run(&site, &opts), Verdict::Report(span()));
}

// The resolver itself: a bare identifier against a reference carrying type
// arguments.
#[test]
fn resolver_classifies_entries() {
    let plain = resolve_extends_target(&plain_extends("Base"));
    assert!(matches!(plain, ExtendsTarget::PlainInterfaceRef { ref name } if name == "Base"));
    let parameterized = resolve_extends_target(&parameterized_extends("Array", 2));
    assert!(matches!(parameterized, ExtendsTarget::ParameterizedRef));
}

// The merge detector itself, over a scope holding every declaration kind.
#[test]
fn merge_detector_finds_only_class_declarations() {
    let scope = scope_of(vec![
        ("Base", DeclarationKind::OtherDeclaration),
        ("Derived", DeclarationKind::ClassDeclaration),
    ]);
    assert!(find_merged_class(&scope, &"Derived".to_string()));
    assert!(!find_merged_class(&scope, &"Base".to_string()));
    assert!(!find_merged_class(&scope, &"Other".to_string()));
    assert!(!find_merged_class(&empty_scope(), &"Derived".to_string()));
}

// Identical site and settings, classified twice and through two separately
// compiled but identical option records, agree.
#[test]
fn identical_inputs_identical_verdicts() {
    let site = interface("Base", 0, vec![plain_extends("Other")], empty_scope());
    let first = options(AllowInterfaces::WithSingleExtends, AllowObjectTypes::Never, Some("^X"));
    let second = options(AllowInterfaces::WithSingleExtends, AllowObjectTypes::Never, Some("^X"));
    assert_eq!(run(&site, &first), run(&site, &first));
    assert_eq!(run(&site, &first), run(&site, &second));
}
