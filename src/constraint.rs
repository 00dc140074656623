//! Predicates over primitive values.

use vstd::prelude::*;

verus! {

/// A predicate over primitive values, together with the error that reports a value outside it.
///
/// A constraint decides which primitive values a constrained type may hold (no NaN, only
/// finite values, ...). Arithmetic re-runs `check` on every primitive result.
pub trait Constraint<T> {
    type Error;

    /// Whether `value` satisfies the constraint.
    spec fn member(value: T) -> bool;

    /// The error that reports `value` as a violation.
    spec fn violation(value: T) -> Self::Error;

    /// Checks `value` against the constraint.
    fn check(value: &T) -> (r: Result<(), Self::Error>)
        ensures
            r == (if Self::member(*value) {
                Ok::<(), Self::Error>(())
            } else {
                Err(Self::violation(*value))
            }),
    ;
}

} // verus!
