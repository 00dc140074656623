//! Primitive values checked against a constraint.

use vstd::prelude::*;
use vstd::std_specs::convert::{FromSpecImpl, TryFromSpecImpl};

use crate::constraint::Constraint;
use crate::expression::{Defined, Expression, Undefined};

verus! {

/// A primitive value that satisfies the constraint `C`.
///
/// The only way to build one is through the constraint's check, so every `Constrained` holds a
/// member of `C`.
#[derive(Copy)]
pub struct Constrained<T, C: Constraint<T>> {
    inner: T,
    phantom: Ghost<core::marker::PhantomData<C>>,
}

impl<T: Copy, C: Constraint<T>> Clone for Constrained<T, C> {
    fn clone(&self) -> (r: Self)
        ensures
            r == *self,
    {
        proof {
            use_type_invariant(self);
        }
        Constrained { inner: self.inner, phantom: self.phantom }
    }
}

/// The outcome of an arithmetic expression over `Constrained<T, C>`.
pub type ExpressionFor<T, C> = Expression<Constrained<T, C>, <C as Constraint<T>>::Error>;

impl<T, C: Constraint<T>> Constrained<T, C> {
    #[verifier::type_invariant]
    spec fn is_member(self) -> bool {
        C::member(self.inner)
    }

    /// The primitive value held.
    pub closed spec fn value(self) -> T {
        self.inner
    }

    /// What checking `value` against `C` yields: the constrained value, or the violation.
    pub closed spec fn construct(value: T) -> Result<Self, C::Error> {
        if C::member(value) {
            Ok(Constrained { inner: value, phantom: Ghost(core::marker::PhantomData) })
        } else {
            Err(C::violation(value))
        }
    }

    /// `construct` as an expression.
    pub open spec fn construct_expression(value: T) -> ExpressionFor<T, C> {
        Expression::from_result(Self::construct(value))
    }

    /// Checking a member yields a constrained value that holds exactly that primitive, so reading
    /// it back gives the primitive unchanged; checking any other value yields its violation.
    pub proof fn lemma_construct(value: T)
        ensures
            C::member(value) ==> Self::construct(value) is Ok && Self::construct(
                value,
            )->Ok_0.value() == value,
            !C::member(value) ==> Self::construct(value) == Err::<Self, C::Error>(
                C::violation(value),
            ),
    {
    }

    /// Checks `value` against `C`.
    pub fn try_new(value: T) -> (r: Result<Self, C::Error>)
        ensures
            r == Self::construct(value),
    {
        match C::check(&value) {
            Ok(()) => Ok(Constrained { inner: value, phantom: Ghost(core::marker::PhantomData) }),
            Err(error) => Err(error),
        }
    }

    /// Checks `value` against `C`, as an expression.
    pub fn new(value: T) -> (r: ExpressionFor<T, C>)
        ensures
            r == Self::construct_expression(value),
    {
        match Self::try_new(value) {
            Ok(constrained) => Defined(constrained),
            Err(error) => Undefined(error),
        }
    }

    /// The primitive value held.
    pub fn into_inner(self) -> (r: T)
        ensures
            r == self.value(),
            C::member(r),
    {
        proof {
            use_type_invariant(&self);
        }
        self.inner
    }

    /// A reference to the primitive value held.
    pub fn get(&self) -> (r: &T)
        ensures
            *r == self.value(),
            C::member(*r),
    {
        proof {
            use_type_invariant(self);
        }
        &self.inner
    }
}

impl<T, C: Constraint<T>> From<T> for Expression<Constrained<T, C>, C::Error> {
    fn from(value: T) -> (r: Self) {
        Constrained::new(value)
    }
}

impl<T, C: Constraint<T>> FromSpecImpl<T> for Expression<Constrained<T, C>, C::Error> {
    open spec fn obeys_from_spec() -> bool {
        true
    }

    open spec fn from_spec(v: T) -> Self {
        Constrained::<T, C>::construct_expression(v)
    }
}

impl<T, C: Constraint<T>> From<Constrained<T, C>> for Expression<Constrained<T, C>, C::Error> {
    fn from(proxy: Constrained<T, C>) -> (r: Self) {
        Defined(proxy)
    }
}

impl<T, C: Constraint<T>> FromSpecImpl<Constrained<T, C>> for Expression<Constrained<T, C>, C::Error> {
    open spec fn obeys_from_spec() -> bool {
        true
    }

    open spec fn from_spec(v: Constrained<T, C>) -> Self {
        Defined(v)
    }
}

impl<T, C: Constraint<T>> TryFrom<Expression<Constrained<T, C>, C::Error>> for Constrained<T, C> {
    type Error = C::Error;

    fn try_from(expression: Expression<Constrained<T, C>, C::Error>) -> (r: Result<Self, C::Error>) {
        match expression {
            Defined(defined) => Ok(defined),
            Undefined(undefined) => Err(undefined),
        }
    }
}

impl<T, C: Constraint<T>> TryFromSpecImpl<Expression<Constrained<T, C>, C::Error>> for Constrained<T, C> {
    open spec fn obeys_try_from_spec() -> bool {
        true
    }

    open spec fn try_from_spec(v: Expression<Constrained<T, C>, C::Error>) -> Result<Self, C::Error> {
        v.to_result()
    }
}

} // verus!
