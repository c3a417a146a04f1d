use vstd::prelude::*;

use crate::control_type::ControlType;
use crate::expression::Expression;
use crate::source_range::SourceRange;

verus! {

/// An expression that performs a non-local control-flow jump: a break,
/// continue, return or redo, possibly aimed at a named target and possibly
/// carrying a property selector for the value the jump produces.
///
/// The node is a terminal, immutable record: all four fields are fixed at
/// construction and only ever read back through the accessors.
#[derive(Debug)]
pub struct ControlExpression {
    pos: SourceRange,
    name: String,
    control_type: ControlType,
    prop: String,
}

impl ControlExpression {
    /// The control target's name, as the characters it is made of.
    pub closed spec fn spec_name(self) -> Seq<char> {
        self.name@
    }

    /// The jump kind the node represents.
    pub closed spec fn spec_control_type(self) -> ControlType {
        self.control_type
    }

    /// The associated property selector, as the characters it is made of.
    pub closed spec fn spec_prop(self) -> Seq<char> {
        self.prop@
    }

    /// Builds the node from the four values the parser recognised. There is
    /// no validation here and construction cannot fail: whether the
    /// combination makes sense in context is a later pass's question, and
    /// both strings may be empty.
    pub fn new(
        pos: SourceRange,
        name: String,
        control_type: ControlType,
        prop: String,
    ) -> (e: ControlExpression)
        ensures
            e.spec_pos() == pos,
            e.spec_name() == name@,
            e.spec_control_type() == control_type,
            e.spec_prop() == prop@,
    {
        ControlExpression { pos, name, control_type, prop }
    }

    /// Read-only view of the control target's name.
    pub fn name(&self) -> (r: &str)
        ensures
            r@ == self.spec_name(),
    {
        self.name.as_str()
    }

    /// Read-only view of the jump kind.
    pub fn control_type(&self) -> (t: ControlType)
        ensures
            t == self.spec_control_type(),
    {
        self.control_type
    }

    /// Read-only view of the property selector.
    pub fn prop(&self) -> (r: &str)
        ensures
            r@ == self.spec_prop(),
    {
        self.prop.as_str()
    }

    /// Everything the accessors and the assignability query can ever reveal
    /// of the two nodes agrees.
    pub open spec fn observably_equal(self, other: ControlExpression) -> bool {
        &&& self.spec_pos() == other.spec_pos()
        &&& self.spec_name() == other.spec_name()
        &&& self.spec_control_type() == other.spec_control_type()
        &&& self.spec_prop() == other.spec_prop()
        &&& self.spec_assignable() == other.spec_assignable()
    }
}

impl Expression for ControlExpression {
    closed spec fn spec_pos(&self) -> SourceRange {
        self.pos
    }

    /// A control expression is always a valid assignment target: a fixed
    /// rule of the grammar being modelled, not a general default.
    open spec fn spec_assignable(&self) -> bool {
        true
    }

    fn pos(&self) -> (r: &SourceRange) {
        &self.pos
    }

    fn is_assignable(&self) -> (b: bool) {
        true
    }
}

/// Law: a control expression may always stand as an assignment target,
/// whatever its range, name, kind or property — including empty strings.
pub proof fn lemma_control_expression_assignable(e: &ControlExpression)
    ensures
        e.spec_assignable(),
{
}

/// Law: two control expressions built from the same four construction
/// inputs are observably equivalent — every accessor and the assignability
/// query yields equal data — even though they may be distinct instances.
/// By the contract of `new`, equal inputs give nodes whose four projections
/// agree, which is what this lemma requires.
pub proof fn lemma_observational_equivalence(a: &ControlExpression, b: &ControlExpression)
    requires
        a.spec_pos() == b.spec_pos(),
        a.spec_name() == b.spec_name(),
        a.spec_control_type() == b.spec_control_type(),
        a.spec_prop() == b.spec_prop(),
    ensures
        a.observably_equal(*b),
{
}

} // verus!
