//! Declaration-merge detection: whether a class declaration statement with a
//! given name stands directly in a given lexical scope. This models the
//! idiom where an empty interface with a single extends clause exists purely
//! to receive a sibling class's members via declaration merging.

use vstd::prelude::*;
use crate::site::{DeclarationKind, Scope};

verus! {

/// A class declaration statement named `name` stands directly in `scope`.
pub open spec fn scope_has_merged_class(scope: Scope, name: Seq<char>) -> bool {
    exists|i: int|
        0 <= i < scope.declarations@.len() && {
            let decl = #[trigger] scope.declarations@[i];
            decl.kind is ClassDeclaration && decl.name@ == name
        }
}

/// Determines whether a class declaration statement with the identical name
/// exists directly in the same scope as a candidate interface.
pub fn find_merged_class(scope: &Scope, name: &String) -> (found: bool)
    ensures
        found == scope_has_merged_class(*scope, name@),
{
    let count = scope.declarations.len();
    let mut i: usize = 0;
    while i < count
        invariant
            i <= count,
            count == scope.declarations@.len(),
            forall|j: int| 0 <= j < i ==> {
                let decl = #[trigger] scope.declarations@[j];
                !(decl.kind is ClassDeclaration && decl.name@ == name@)
            },
        decreases count - i,
    {
        let decl = &scope.declarations[i];
        if decl.kind == DeclarationKind::ClassDeclaration && decl.name == *name {
            assert(scope.declarations@[i as int].kind is ClassDeclaration
                && scope.declarations@[i as int].name@ == name@);
            return true;
        }
        i += 1;
    }
    false
}

} // verus!
