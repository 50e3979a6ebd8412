//! The scalar-expression core of a SQL engine: the expression algebra, the
//! walkers that read it, the rewriter that turns computed sub-expressions into
//! positional references, and the binder that attaches evaluators.

pub mod agg;
pub mod bind;
pub mod catalog;
pub mod checks;
pub mod copy;
pub mod errors;
pub mod evaluator;
pub mod expression;
pub mod laws;
pub mod naming;
pub mod operator;
pub mod reference;
pub mod text;
pub mod types;
pub mod value;
