use vstd::prelude::*;

verus! {

/// One location in the source text: an absolute offset together with the
/// line and column it falls on.
#[derive(Clone, Copy, Debug, PartialEq, Eq, Structural)]
pub struct Position {
    pub offset: usize,
    pub line: usize,
    pub column: usize,
}

/// An immutable span of source text. Every AST node stores the range it was
/// built from; the range serves diagnostics only and never affects the
/// meaning of the node.
#[derive(Clone, Copy, Debug, PartialEq, Eq, Structural)]
pub struct SourceRange {
    start: Position,
    end: Position,
}

impl SourceRange {
    /// The position the span starts at.
    pub closed spec fn spec_start(self) -> Position {
        self.start
    }

    /// The position the span ends at.
    pub closed spec fn spec_end(self) -> Position {
        self.end
    }

    /// A span is well formed when it does not run backwards: its start
    /// offset is at most its end offset. A zero-width span is well formed.
    pub open spec fn wf(self) -> bool {
        self.spec_start().offset <= self.spec_end().offset
    }

    /// Builds the span from its two endpoints. A backwards span is a logic
    /// error of the caller, so it is ruled out here rather than recovered
    /// from.
    pub fn new(start: Position, end: Position) -> (r: SourceRange)
        requires
            start.offset <= end.offset,
        ensures
            r.spec_start() == start,
            r.spec_end() == end,
            r.wf(),
    {
        SourceRange { start, end }
    }

    /// Read-only view of the start position.
    pub fn start(&self) -> (p: Position)
        ensures
            p == self.spec_start(),
    {
        self.start
    }

    /// Read-only view of the end position.
    pub fn end(&self) -> (p: Position)
        ensures
            p == self.spec_end(),
    {
        self.end
    }
}

} // verus!
