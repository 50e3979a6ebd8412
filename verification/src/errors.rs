//! The failures that the expression core reports to the planner.

use crate::operator::{BinaryOperator, UnaryOperator};
use crate::types::LogicalType;
use vstd::prelude::*;

verus! {

#[derive(Debug, Clone, Copy, PartialEq, Eq, Hash)]
pub enum DatabaseError {
    /// A parser operator token outside the supported set.
    Unsupported,
    /// The two operand types of a binary node have no common type.
    TypeMismatch(LogicalType, LogicalType),
    /// The evaluator factory has no unary entry for the type and operator.
    UnsupportedUnaryOperator(LogicalType, UnaryOperator),
    /// The evaluator factory has no binary entry for the type and operator.
    UnsupportedBinaryOperator(LogicalType, BinaryOperator),
}

} // verus!
