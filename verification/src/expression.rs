use vstd::prelude::*;

use crate::source_range::SourceRange;

verus! {

/// The capability every expression node of the tree provides: where it came
/// from in the source, and whether it may stand as an assignment target.
///
/// Each variant answers both questions for itself; there is no default,
/// because assignability differs by construct and a wrong answer lets an
/// ill-formed assignment through.
pub trait Expression {
    /// The source range the node captured at construction.
    spec fn spec_pos(&self) -> SourceRange;

    /// Whether this kind of expression may appear on the left of an
    /// assignment.
    spec fn spec_assignable(&self) -> bool;

    /// Returns exactly the range captured at construction, so that a
    /// diagnostic built from it points at the right place in the source.
    fn pos(&self) -> (r: &SourceRange)
        ensures
            *r == self.spec_pos(),
    ;

    /// A pure query: the answer depends only on the node, so repeated calls
    /// on the same node agree.
    fn is_assignable(&self) -> (b: bool)
        ensures
            b == self.spec_assignable(),
    ;
}

} // verus!
