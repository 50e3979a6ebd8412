//! Evaluators: the runtime kernels that the binder attaches to arithmetic
//! and comparison nodes, and the factory that resolves them.

use crate::errors::DatabaseError;
use crate::operator::{BinaryOperator, UnaryOperator};
use crate::types::LogicalType;
use vstd::prelude::*;

verus! {

/// The kernel of one unary operator on operands of one type.
#[derive(Debug, Clone, Copy, PartialEq, Eq, Hash)]
pub struct UnaryEvaluator {
    pub ty: LogicalType,
    pub op: UnaryOperator,
}

/// The kernel of one binary operator on operands of one common type.
#[derive(Debug, Clone, Copy, PartialEq, Eq, Hash)]
pub struct BinaryEvaluator {
    pub ty: LogicalType,
    pub op: BinaryOperator,
}

/// A stateless lookup from operand type and operator to the kernel.
pub struct EvaluatorFactory;

impl BinaryOperator {
    pub open spec fn spec_is_comparison(&self) -> bool {
        matches!(
            self,
            BinaryOperator::Gt | BinaryOperator::Lt | BinaryOperator::GtEq | BinaryOperator::LtEq
                | BinaryOperator::Eq | BinaryOperator::NotEq
        )
    }

    pub open spec fn spec_is_arithmetic(&self) -> bool {
        matches!(
            self,
            BinaryOperator::Plus | BinaryOperator::Minus | BinaryOperator::Multiply
                | BinaryOperator::Divide | BinaryOperator::Modulo
        )
    }

    pub fn is_comparison(&self) -> (r: bool)
        ensures
            r == self.spec_is_comparison(),
    {
        matches!(
            self,
            BinaryOperator::Gt | BinaryOperator::Lt | BinaryOperator::GtEq | BinaryOperator::LtEq
                | BinaryOperator::Eq | BinaryOperator::NotEq
        )
    }

    pub fn is_arithmetic(&self) -> (r: bool)
        ensures
            r == self.spec_is_arithmetic(),
    {
        matches!(
            self,
            BinaryOperator::Plus | BinaryOperator::Minus | BinaryOperator::Multiply
                | BinaryOperator::Divide | BinaryOperator::Modulo
        )
    }
}

impl EvaluatorFactory {
    /// The pairs of operand type and unary operator that have a kernel:
    /// sign operators on signed integers and on floating types, negation on
    /// booleans.
    pub open spec fn spec_unary_supported(ty: LogicalType, op: UnaryOperator) -> bool {
        match ty {
            LogicalType::Tinyint | LogicalType::Smallint | LogicalType::Integer
            | LogicalType::Bigint | LogicalType::Float | LogicalType::Double => op
                is Plus || op is Minus,
            LogicalType::Boolean => op is Not,
            _ => false,
        }
    }

    /// The pairs of operand type and binary operator that have a kernel.
    ///
    /// Numeric types take arithmetic and comparison; dates and times take
    /// comparison; booleans take `And`, `Or`, `Eq` and `NotEq`; character
    /// types take comparison, concatenation and the two `like` forms; tuples
    /// take comparison; `SqlNull` takes every operator; `Invalid` none.
    pub open spec fn spec_binary_supported(ty: LogicalType, op: BinaryOperator) -> bool {
        match ty {
            LogicalType::Invalid => false,
            LogicalType::SqlNull => true,
            LogicalType::Boolean => matches!(
                op,
                BinaryOperator::And | BinaryOperator::Or | BinaryOperator::Eq
                    | BinaryOperator::NotEq
            ),
            LogicalType::Char(_, _) | LogicalType::Varchar(_, _) => op.spec_is_comparison()
                || matches!(
                op,
                BinaryOperator::StringConcat | BinaryOperator::Like(_) | BinaryOperator::NotLike(_)
            ),
            LogicalType::Date | LogicalType::DateTime | LogicalType::Time | LogicalType::Tuple =>
                op.spec_is_comparison(),
            _ => op.spec_is_comparison() || op.spec_is_arithmetic(),
        }
    }

    /// Resolves the kernel of a unary operator on operands of type `ty`.
    ///
    /// Fails with `UnsupportedUnaryOperator`, carrying both arguments,
    /// exactly where the pair has no kernel.
    pub fn unary_create(ty: LogicalType, op: UnaryOperator) -> (r: Result<
        UnaryEvaluator,
        DatabaseError,
    >)
        ensures
            r == if Self::spec_unary_supported(ty, op) {
                Ok::<UnaryEvaluator, DatabaseError>(UnaryEvaluator { ty, op })
            } else {
                Err::<UnaryEvaluator, DatabaseError>(
                    DatabaseError::UnsupportedUnaryOperator(ty, op),
                )
            },
    {
        let supported = match ty {
            LogicalType::Tinyint | LogicalType::Smallint | LogicalType::Integer
            | LogicalType::Bigint | LogicalType::Float | LogicalType::Double => matches!(
                op,
                UnaryOperator::Plus | UnaryOperator::Minus
            ),
            LogicalType::Boolean => matches!(op, UnaryOperator::Not),
            _ => false,
        };
        if supported {
            Ok(UnaryEvaluator { ty, op })
        } else {
            Err(DatabaseError::UnsupportedUnaryOperator(ty, op))
        }
    }

    /// Resolves the kernel of a binary operator on operands of the common
    /// type `ty`.
    ///
    /// Fails with `UnsupportedBinaryOperator`, carrying both arguments,
    /// exactly where the pair has no kernel.
    pub fn binary_create(ty: LogicalType, op: BinaryOperator) -> (r: Result<
        BinaryEvaluator,
        DatabaseError,
    >)
        ensures
            r == if Self::spec_binary_supported(ty, op) {
                Ok::<BinaryEvaluator, DatabaseError>(BinaryEvaluator { ty, op })
            } else {
                Err::<BinaryEvaluator, DatabaseError>(
                    DatabaseError::UnsupportedBinaryOperator(ty, op),
                )
            },
    {
        let supported = match ty {
            LogicalType::Invalid => false,
            LogicalType::SqlNull => true,
            LogicalType::Boolean => matches!(
                op,
                BinaryOperator::And | BinaryOperator::Or | BinaryOperator::Eq
                    | BinaryOperator::NotEq
            ),
            LogicalType::Char(_, _) | LogicalType::Varchar(_, _) => op.is_comparison() || matches!(
                op,
                BinaryOperator::StringConcat | BinaryOperator::Like(_) | BinaryOperator::NotLike(_)
            ),
            LogicalType::Date | LogicalType::DateTime | LogicalType::Time | LogicalType::Tuple =>
                op.is_comparison(),
            _ => op.is_comparison() || op.is_arithmetic(),
        };
        if supported {
            Ok(BinaryEvaluator { ty, op })
        } else {
            Err(DatabaseError::UnsupportedBinaryOperator(ty, op))
        }
    }
}

} // verus!
