//! A small abstract-syntax-tree node model for a compiler front end.
//!
//! Every node carries the source range it was built from, for diagnostics,
//! and answers the semantic queries later passes ask of an expression.

pub mod control_expression;
pub mod control_type;
pub mod expression;
pub mod source_range;

pub use control_expression::ControlExpression;
pub use control_type::ControlType;
pub use expression::Expression;
pub use source_range::Position;
pub use source_range::SourceRange;
