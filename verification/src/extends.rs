//! Classification of one entry of an interface's extends list: a bare
//! reference to another interface, or a reference that carries type
//! arguments. Only a bare reference can take part in the merge-based
//! exemption; a parameterized reference gives no structural guarantee of a
//! plain object shape.

use vstd::prelude::*;

verus! {

/// One entry of an interface's extends list, as the host engine hands it
/// over: the referenced name and how many type arguments the reference
/// carries (zero for a bare identifier).
#[derive(Debug)]
pub struct ExtendsEntry {
    pub name: String,
    pub type_argument_count: usize,
}

/// The classification of one extends-list entry.
#[derive(Debug)]
pub enum ExtendsTarget {
    /// A bare identifier with no type arguments.
    PlainInterfaceRef { name: String },
    /// A reference carrying one or more type arguments: a generic utility
    /// type or a forwarding reference to another generic interface. The
    /// arguments themselves are never consulted.
    ParameterizedRef,
}

/// An entry is a plain interface reference exactly when it carries no type
/// arguments.
pub open spec fn spec_resolve_extends_target(entry: ExtendsEntry) -> ExtendsTarget {
    if entry.type_argument_count == 0 {
        ExtendsTarget::PlainInterfaceRef { name: entry.name }
    } else {
        ExtendsTarget::ParameterizedRef
    }
}

/// Classifies one extends-list entry.
pub fn resolve_extends_target(entry: &ExtendsEntry) -> (target: ExtendsTarget)
    ensures
        target == spec_resolve_extends_target(*entry),
{
    if entry.type_argument_count == 0 {
        ExtendsTarget::PlainInterfaceRef { name: entry.name.clone() }
    } else {
        ExtendsTarget::ParameterizedRef
    }
}

} // verus!
