use vstd::prelude::*;

verus! {

/// The closed set of control-flow jump kinds a control expression can
/// stand for. The enumeration carries no payload: it is a pure
/// discriminator with value semantics, and adding a kind is a deliberate
/// breaking change for every pass that matches on it exhaustively.
#[derive(Clone, Copy, Debug, PartialEq, Eq, Structural)]
pub enum ControlType {
    Break,
    Continue,
    Return,
    Redo,
}

} // verus!
