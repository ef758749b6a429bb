//! The data a candidate site carries: one syntactic occurrence of an
//! object-type construct, handed over by the host engine as plain values.
//! Sites are discovered once per traversal, evaluated exactly once, and
//! never mutated.

use vstd::prelude::*;
use crate::extends::ExtendsEntry;

verus! {

/// Byte range of a candidate site in the analysed source text. The range is
/// carried through unchanged into a `Report` verdict.
#[derive(Clone, Copy, Debug, PartialEq, Eq, Structural)]
pub struct Span {
    pub start: u32,
    pub end: u32,
}

/// Kind of one declaration statement of a lexical scope. Only a class
/// declaration statement can merge with a same-named interface; a class
/// expression bound to a variable, an interface, or anything else counts as
/// `OtherDeclaration`.
#[derive(Clone, Copy, Debug, PartialEq, Eq, Structural)]
pub enum DeclarationKind {
    ClassDeclaration,
    OtherDeclaration,
}

/// One declaration statement of a lexical scope: its declared name and kind.
#[derive(Debug)]
pub struct ScopeDeclaration {
    pub name: String,
    pub kind: DeclarationKind,
}

/// The declarations standing directly in one lexical scope (a module top
/// level or a namespace body), in source order. Declarations of enclosing or
/// nested scopes do not belong here: merging never crosses a scope boundary.
#[derive(Debug)]
pub struct Scope {
    pub declarations: Vec<ScopeDeclaration>,
}

/// Where an inline object-type literal sits.
#[derive(Clone, Copy, Debug, PartialEq, Eq, Structural)]
pub enum EnclosingShape {
    /// Directly the value of a type alias.
    DirectAliasValue,
    /// A member of a union type.
    UnionMember,
    /// A member of an intersection type.
    IntersectionMember,
    /// Any other position: an annotation, a generic argument, and so on.
    OtherPosition,
}

/// The value of a type alias declaration, as far as this rule reads it.
#[derive(Debug)]
pub enum AliasValue {
    /// The alias value is directly an object-type literal with the given
    /// number of members (whitespace and comments excluded).
    ObjectTypeLiteral { member_count: usize },
    /// Any other type expression. A literal nested inside it (in a union,
    /// an intersection, a generic argument) is discovered by the host as a
    /// separate `InlineTypeLiteral` site.
    OtherType,
}

/// One candidate site. A site is structurally empty exactly when its member
/// count is zero; only structurally empty sites can be reported.
#[derive(Debug)]
pub enum CandidateSite {
    /// An interface declaration: its name, how many members its body holds,
    /// its extends list, and the lexical scope it stands in (consulted only
    /// for the merge-based exemption).
    InterfaceDeclaration {
        name: String,
        member_count: usize,
        extends_list: Vec<ExtendsEntry>,
        scope: Scope,
        span: Span,
    },
    /// A type alias declaration: its name and its value.
    TypeAliasDeclaration { name: String, value: AliasValue, span: Span },
    /// An object-type literal anywhere other than an interface body: its
    /// member count and the shape of its enclosing construct. It carries no
    /// name, so the name-based exemption never reaches it.
    InlineTypeLiteral { member_count: usize, enclosing_shape: EnclosingShape, span: Span },
}

/// The declared name a site carries; an inline literal carries none.
pub open spec fn site_name(site: CandidateSite) -> Seq<char> {
    match site {
        CandidateSite::InterfaceDeclaration { name, .. } => name@,
        CandidateSite::TypeAliasDeclaration { name, .. } => name@,
        CandidateSite::InlineTypeLiteral { .. } => Seq::empty(),
    }
}

/// Whether the site exhibits a member list with at least one member: an
/// interface body with members, an alias whose value is a literal with
/// members, or an inline literal with members.
pub open spec fn has_nonempty_members(site: CandidateSite) -> bool {
    match site {
        CandidateSite::InterfaceDeclaration { member_count, .. } => member_count > 0,
        CandidateSite::TypeAliasDeclaration { value, .. } => {
            value matches AliasValue::ObjectTypeLiteral { member_count } && member_count > 0
        },
        CandidateSite::InlineTypeLiteral { member_count, .. } => member_count > 0,
    }
}

} // verus!
