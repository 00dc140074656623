//! The outcome of an arithmetic expression that may or may not be defined.

use vstd::prelude::*;
use vstd::std_specs::cmp::{PartialEqSpec, PartialEqSpecImpl, PartialOrdSpec, PartialOrdSpecImpl};
use vstd::std_specs::convert::{FromSpec, FromSpecImpl};

verus! {

/// The result of an arithmetic expression that may or may not be defined.
///
/// `Defined` carries the value of the expression; `Undefined` carries the error of the first
/// operation that failed. Unlike `Result`, an `Expression` is meant to be threaded through
/// further arithmetic: every operation on an `Undefined` operand yields that same error.
#[derive(Clone, Copy, Debug)]
pub enum Expression<T, E = ()> {
    Defined(T),
    Undefined(E),
}

pub use Expression::Defined;
pub use Expression::Undefined;

impl<T, E> Expression<T, E> {
    /// The expression viewed as a `Result`: `Ok` for `Defined`, `Err` for `Undefined`.
    pub open spec fn to_result(self) -> Result<T, E> {
        match self {
            Defined(v) => Ok(v),
            Undefined(e) => Err(e),
        }
    }

    /// The expression built from a `Result`: `Defined` for `Ok`, `Undefined` for `Err`.
    pub open spec fn from_result(r: Result<T, E>) -> Self {
        match r {
            Ok(v) => Defined(v),
            Err(e) => Undefined(e),
        }
    }

    /// Returns the defined value. Calling it on an undefined expression is a caller error.
    pub fn unwrap(self) -> (r: T)
        requires
            self is Defined,
        ensures
            r == self->Defined_0,
    {
        match self {
            Defined(defined) => defined,
            Undefined(_) => vstd::pervasive::unreached(),
        }
    }

    pub fn as_ref(&self) -> (r: Expression<&T, &E>)
        ensures
            r is Defined <==> self is Defined,
            r is Defined ==> *r->Defined_0 == self->Defined_0,
            r is Undefined ==> *r->Undefined_0 == self->Undefined_0,
    {
        match self {
            Defined(defined) => Defined(defined),
            Undefined(undefined) => Undefined(undefined),
        }
    }

    /// Applies `f` to a defined value; an undefined expression keeps its error.
    pub fn map<U, F>(self, f: F) -> (r: Expression<U, E>)
        where
            F: FnOnce(T) -> U,
        requires
            self is Defined ==> f.requires((self->Defined_0,)),
        ensures
            match self {
                Defined(v) => r is Defined && f.ensures((v,), r->Defined_0),
                Undefined(e) => r == Expression::<U, E>::Undefined(e),
            },
    {
        match self {
            Defined(defined) => Defined(f(defined)),
            Undefined(undefined) => Undefined(undefined),
        }
    }

    /// Applies the fallible `f` to a defined value; an undefined expression keeps its error.
    pub fn and_then<U, F>(self, f: F) -> (r: Expression<U, E>)
        where
            F: FnOnce(T) -> Expression<U, E>,
        requires
            self is Defined ==> f.requires((self->Defined_0,)),
        ensures
            match self {
                Defined(v) => f.ensures((v,), r),
                Undefined(e) => r == Expression::<U, E>::Undefined(e),
            },
    {
        match self {
            Defined(defined) => f(defined),
            Undefined(undefined) => Undefined(undefined),
        }
    }

    /// Combines two expressions with `f`. `f` runs only when both are defined; otherwise the
    /// error of the left operand wins if it has one, else that of the right operand.
    pub fn zip_map<U, V, F>(self, other: Expression<U, E>, f: F) -> (r: Expression<V, E>)
        where
            F: FnOnce(T, U) -> V,
        requires
            self is Defined && other is Defined ==> f.requires(
                (self->Defined_0, other->Defined_0),
            ),
        ensures
            match (self, other) {
                (Defined(a), Defined(b)) => r is Defined && f.ensures((a, b), r->Defined_0),
                (Undefined(e), _) => r == Expression::<V, E>::Undefined(e),
                (_, Undefined(e)) => r == Expression::<V, E>::Undefined(e),
            },
    {
        match (self, other) {
            (Defined(left), Defined(right)) => Defined(f(left, right)),
            (Undefined(undefined), _) => Undefined(undefined),
            (_, Undefined(undefined)) => Undefined(undefined),
        }
    }

    pub fn defined(self) -> (r: Option<T>)
        ensures
            r == match self {
                Defined(v) => Some(v),
                Undefined(_) => None::<T>,
            },
    {
        match self {
            Defined(defined) => Some(defined),
            _ => None,
        }
    }

    pub fn undefined(self) -> (r: Option<E>)
        ensures
            r == match self {
                Defined(_) => None::<E>,
                Undefined(e) => Some(e),
            },
    {
        match self {
            Undefined(undefined) => Some(undefined),
            _ => None,
        }
    }

    pub fn is_defined(&self) -> (r: bool)
        ensures
            r == self is Defined,
    {
        matches!(self, Defined(_))
    }

    pub fn is_undefined(&self) -> (r: bool)
        ensures
            r == self is Undefined,
    {
        matches!(self, Undefined(_))
    }
}

impl<'a, T, E> Expression<&'a T, E> {
    pub fn copied(self) -> (r: Expression<T, E>)
        where
            T: Copy,
        ensures
            r is Defined <==> self is Defined,
            r is Defined ==> r->Defined_0 == *self->Defined_0,
            r is Undefined ==> r->Undefined_0 == self->Undefined_0,
    {
        match self {
            Defined(defined) => Defined(*defined),
            Undefined(undefined) => Undefined(undefined),
        }
    }

    pub fn cloned(self) -> (r: Expression<T, E>)
        where
            T: Clone,
        ensures
            r is Defined <==> self is Defined,
            r is Defined ==> cloned::<T>(*self->Defined_0, r->Defined_0),
            r is Undefined ==> r->Undefined_0 == self->Undefined_0,
    {
        match self {
            Defined(defined) => Defined(defined.clone()),
            Undefined(undefined) => Undefined(undefined),
        }
    }
}

impl<'a, T, E> Expression<&'a mut T, E> {
    pub fn copied(self) -> (r: Expression<T, E>)
        where
            T: Copy,
        ensures
            r is Defined <==> self is Defined,
            r is Defined ==> r->Defined_0 == *self->Defined_0,
            r is Undefined ==> r->Undefined_0 == self->Undefined_0,
    {
        match self {
            Defined(defined) => Defined(*defined),
            Undefined(undefined) => Undefined(undefined),
        }
    }

    pub fn cloned(self) -> (r: Expression<T, E>)
        where
            T: Clone,
        ensures
            r is Defined <==> self is Defined,
            r is Defined ==> cloned::<T>(*self->Defined_0, r->Defined_0),
            r is Undefined ==> r->Undefined_0 == self->Undefined_0,
    {
        match self {
            Defined(defined) => Defined(defined.clone()),
            Undefined(undefined) => Undefined(undefined),
        }
    }
}

impl<T, E> From<Result<T, E>> for Expression<T, E> {
    fn from(result: Result<T, E>) -> (r: Self) {
        match result {
            Ok(output) => Defined(output),
            Err(error) => Undefined(error),
        }
    }
}

impl<T, E> FromSpecImpl<Result<T, E>> for Expression<T, E> {
    open spec fn obeys_from_spec() -> bool {
        true
    }

    open spec fn from_spec(v: Result<T, E>) -> Self {
        Self::from_result(v)
    }
}

impl<T, E> From<Expression<T, E>> for Result<T, E> {
    fn from(expression: Expression<T, E>) -> (r: Self) {
        match expression {
            Defined(defined) => Ok(defined),
            Undefined(undefined) => Err(undefined),
        }
    }
}

impl<T, E> FromSpecImpl<Expression<T, E>> for Result<T, E> {
    open spec fn obeys_from_spec() -> bool {
        true
    }

    open spec fn from_spec(v: Expression<T, E>) -> Self {
        v.to_result()
    }
}

/// Two expressions are equal only when both are defined and their values are equal: an
/// undefined expression equals nothing, not even itself.
impl<T: PartialEqSpec, E> PartialEq for Expression<T, E> {
    fn eq(&self, other: &Self) -> (r: bool) {
        match (self, other) {
            (Defined(left), Defined(right)) => left.eq(right),
            _ => false,
        }
    }
}

impl<T: PartialEqSpec, E> PartialEqSpecImpl for Expression<T, E> {
    open spec fn obeys_eq_spec() -> bool {
        T::obeys_eq_spec()
    }

    open spec fn eq_spec(&self, other: &Self) -> bool {
        match (self, other) {
            (Defined(left), Defined(right)) => left.eq_spec(right),
            _ => false,
        }
    }
}

/// Two expressions are ordered only when both are defined and their values are ordered.
impl<T: PartialEqSpec + PartialOrdSpec, E> PartialOrd for Expression<T, E> {
    fn partial_cmp(&self, other: &Self) -> (r: Option<core::cmp::Ordering>) {
        match (self, other) {
            (Defined(left), Defined(right)) => left.partial_cmp(right),
            _ => None,
        }
    }
}

impl<T: PartialEqSpec + PartialOrdSpec, E> PartialOrdSpecImpl for Expression<T, E> {
    open spec fn obeys_partial_cmp_spec() -> bool {
        T::obeys_partial_cmp_spec()
    }

    open spec fn partial_cmp_spec(&self, other: &Self) -> Option<core::cmp::Ordering> {
        match (self, other) {
            (Defined(left), Defined(right)) => left.partial_cmp_spec(right),
            _ => None,
        }
    }
}

/// Converting an expression to a `Result` and back gives the expression, and converting a
/// `Result` to an expression and back gives the `Result`.
pub proof fn lemma_result_round_trip<T, E>(x: Expression<T, E>, r: Result<T, E>)
    ensures
        <Expression<T, E> as FromSpec<Result<T, E>>>::from_spec(
            <Result<T, E> as FromSpec<Expression<T, E>>>::from_spec(x),
        ) == x,
        <Result<T, E> as FromSpec<Expression<T, E>>>::from_spec(
            <Expression<T, E> as FromSpec<Result<T, E>>>::from_spec(r),
        ) == r,
{
}

/// An undefined expression equals no expression, whatever the errors; two defined expressions
/// are equal exactly when their values are.
pub proof fn lemma_equality<T: PartialEqSpec, E>(v1: T, v2: T, e1: E, e2: E, x: Expression<T, E>)
    ensures
        !PartialEqSpec::eq_spec(&Expression::<T, E>::Undefined(e1), &Expression::Undefined(e2)),
        !PartialEqSpec::eq_spec(&Expression::<T, E>::Undefined(e1), &x),
        !PartialEqSpec::eq_spec(&x, &Expression::<T, E>::Undefined(e2)),
        PartialEqSpec::eq_spec(&Expression::<T, E>::Defined(v1), &Expression::Defined(v2))
            == PartialEqSpec::eq_spec(&v1, &v2),
{
}

} // verus!
