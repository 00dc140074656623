//! Numeric values that carry an invariant, and arithmetic that defers the handling of its
//! violations.
//!
//! A [`Constraint`] says which primitive values are acceptable. A [`Constrained`] value holds
//! one of them. Arithmetic over constrained values yields an [`Expression`]: `Defined` with a
//! constrained result, or `Undefined` with the error of the first operation whose primitive
//! result broke the constraint. Expressions take part in further arithmetic, so the error is
//! handled once, at the end of the expression.

pub mod constraint;
pub mod expression;
pub mod operation;
pub mod proxy;

pub use constraint::Constraint;
pub use expression::{Defined, Expression, Undefined};
pub use proxy::{Constrained, ExpressionFor};
