//! Arithmetic over expressions and constrained values.
//!
//! Every operation takes the same path: an undefined operand passes its error on (the left
//! operand's first), else the primitive function runs on the primitives held and its result is
//! checked against the constraint again. The operators `+ - * / %` and unary `-` are defined for
//! an expression with an expression, a constrained value or a primitive on the right, and for a
//! constrained value with an expression on the right.

use std::ops::{Add, Div, Mul, Neg, Rem, Sub};
use vstd::prelude::*;
use vstd::std_specs::ops::{
    AddSpec, AddSpecImpl, DivSpec, DivSpecImpl, MulSpec, MulSpecImpl, NegSpec, NegSpecImpl, RemSpec,
    RemSpecImpl, SubSpec, SubSpecImpl,
};

use crate::constraint::Constraint;
use crate::expression::{Defined, Expression, Undefined};
use crate::proxy::{Constrained, ExpressionFor};

verus! {

/// What an operation on `x` yields, given the primitive function `p`: the error of an undefined
/// operand, else `p`'s result checked against the constraint.
pub open spec fn unary_spec<T, C: Constraint<T>>(
    x: ExpressionFor<T, C>,
    p: spec_fn(T) -> T,
) -> ExpressionFor<T, C> {
    match x {
        Defined(a) => Constrained::<T, C>::construct_expression(p(a.value())),
        Undefined(e) => Undefined(e),
    }
}

/// What an operation on `left` and `right` yields, given the primitive function `p`: the error
/// of the left operand if it is undefined, else that of the right operand if it is undefined,
/// else `p`'s result checked against the constraint.
pub open spec fn binary_spec<T, C: Constraint<T>>(
    left: ExpressionFor<T, C>,
    right: ExpressionFor<T, C>,
    p: spec_fn(T, T) -> T,
) -> ExpressionFor<T, C> {
    match (left, right) {
        (Undefined(e), _) => Undefined(e),
        (_, Undefined(e)) => Undefined(e),
        (Defined(a), Defined(b)) => Constrained::<T, C>::construct_expression(
            p(a.value(), b.value()),
        ),
    }
}

/// Applies the primitive function `f` to a defined operand and checks the result against the
/// constraint; an undefined operand keeps its error and `f` is not called.
pub fn unary<T, C: Constraint<T>, F: FnOnce(T) -> T>(x: ExpressionFor<T, C>, f: F) -> (r:
    ExpressionFor<T, C>)
    requires
        x is Defined ==> f.requires((x->Defined_0.value(),)),
    ensures
        unary_ensures(x, r, |a: T, v: T| f.ensures((a,), v)),
{
    match x {
        Defined(a) => {
            let v = f(a.into_inner());
            Constrained::new(v)
        },
        Undefined(e) => Undefined(e),
    }
}

/// Applies the primitive function `f` to two defined operands and checks the result against the
/// constraint. If either operand is undefined, `f` is not called and the error of the left
/// operand wins over that of the right one.
pub fn binary<T, C: Constraint<T>, F: FnOnce(T, T) -> T>(
    left: ExpressionFor<T, C>,
    right: ExpressionFor<T, C>,
    f: F,
) -> (r: ExpressionFor<T, C>)
    requires
        binary_req(left, right, |a: T, b: T| f.requires((a, b))),
    ensures
        binary_ensures(left, right, r, |a: T, b: T, v: T| f.ensures((a, b), v)),
{
    match (left, right) {
        (Defined(a), Defined(b)) => {
            let v = f(a.into_inner(), b.into_inner());
            Constrained::new(v)
        },
        (Undefined(e), _) => Undefined(e),
        (_, Undefined(e)) => Undefined(e),
    }
}

/// Applies the primitive function `f`, which has two results (a sine and a cosine, say), to a
/// defined operand and checks each result against the constraint. An undefined operand puts its
/// error in both results.
pub fn unary_pair<T, C: Constraint<T>, F: FnOnce(T) -> (T, T)>(x: ExpressionFor<T, C>, f: F) -> (r:
    (ExpressionFor<T, C>, ExpressionFor<T, C>))
    where
        C::Error: Clone,
    requires
        x is Defined ==> f.requires((x->Defined_0.value(),)),
    ensures
        match x {
            Defined(a) => exists|v: (T, T)|
                f.ensures((a.value(),), v) && r.0 == Constrained::<T, C>::construct_expression(v.0)
                    && r.1 == Constrained::<T, C>::construct_expression(v.1),
            Undefined(e) => r.0 is Undefined && cloned::<C::Error>(e, r.0->Undefined_0) && r.1
                == ExpressionFor::<T, C>::Undefined(e),
        },
{
    match x {
        Defined(a) => {
            let (first, second) = f(a.into_inner());
            (Constrained::new(first), Constrained::new(second))
        },
        Undefined(e) => (Undefined(e.clone()), Undefined(e)),
    }
}

/// The value of `x` after the steps of `steps`, in order: each step is a primitive function and
/// the right operand that it combines with the running value.
pub open spec fn chain<T, C: Constraint<T>>(
    x: ExpressionFor<T, C>,
    steps: Seq<(spec_fn(T, T) -> T, ExpressionFor<T, C>)>,
) -> ExpressionFor<T, C>
    decreases steps.len(),
{
    if steps.len() == 0 {
        x
    } else {
        let (p, right) = steps.last();
        binary_spec(chain(x, steps.drop_last()), right, p)
    }
}

/// An undefined value keeps its error through any chain of operations: neither a unary
/// operation nor a binary one with the value on the left alters or replaces the error.
pub proof fn lemma_short_circuit<T, C: Constraint<T>>(
    x: ExpressionFor<T, C>,
    steps: Seq<(spec_fn(T, T) -> T, ExpressionFor<T, C>)>,
    p: spec_fn(T) -> T,
)
    requires
        x is Undefined,
    ensures
        chain(x, steps) == x,
        unary_spec(x, p) == x,
    decreases steps.len(),
{
    if steps.len() > 0 {
        lemma_short_circuit(x, steps.drop_last(), p);
    }
}

/// When both operands are undefined, the result carries the error of the left one.
pub proof fn lemma_left_bias<T, C: Constraint<T>>(
    x: ExpressionFor<T, C>,
    y: ExpressionFor<T, C>,
    p: spec_fn(T, T) -> T,
)
    requires
        x is Undefined,
        y is Undefined,
    ensures
        binary_spec(x, y, p) == x,
{
}

/// Arithmetic on two constrained values re-checks the primitive result: a result outside the
/// constraint yields its violation, never a constrained value.
pub proof fn lemma_revalidation<T, C: Constraint<T>>(
    a: Constrained<T, C>,
    b: Constrained<T, C>,
    p: spec_fn(T, T) -> T,
)
    requires
        !C::member(p(a.value(), b.value())),
    ensures
        binary_spec(ExpressionFor::<T, C>::Defined(a), ExpressionFor::<T, C>::Defined(b), p)
            == ExpressionFor::<T, C>::Undefined(C::violation(p(a.value(), b.value()))),
{
    Constrained::<T, C>::lemma_construct(p(a.value(), b.value()));
}

/// What holds of the result `r` of an operation on `x`, where `post` says what holds of the
/// primitive function's result: the error of an undefined operand, else some primitive result
/// that meets `post`, checked against the constraint.
pub open spec fn unary_ensures<T, C: Constraint<T>>(
    x: ExpressionFor<T, C>,
    r: ExpressionFor<T, C>,
    post: spec_fn(T, T) -> bool,
) -> bool {
    match x {
        Defined(a) => exists|v: T| post(a.value(), v) && r == Constrained::<T, C>::construct_expression(v),
        Undefined(e) => r == ExpressionFor::<T, C>::Undefined(e),
    }
}

/// What holds of the result `r` of an operation on `left` and `right`, where `post` says what
/// holds of the primitive function's result: the error of the left operand if it is undefined,
/// else that of the right operand if it is undefined, else some primitive result that meets
/// `post`, checked against the constraint.
pub open spec fn binary_ensures<T, C: Constraint<T>>(
    left: ExpressionFor<T, C>,
    right: ExpressionFor<T, C>,
    r: ExpressionFor<T, C>,
    post: spec_fn(T, T, T) -> bool,
) -> bool {
    match (left, right) {
        (Undefined(e), _) => r == ExpressionFor::<T, C>::Undefined(e),
        (_, Undefined(e)) => r == ExpressionFor::<T, C>::Undefined(e),
        (Defined(a), Defined(b)) => exists|v: T|
            post(a.value(), b.value(), v) && r == Constrained::<T, C>::construct_expression(v),
    }
}

/// Whether the primitive function is admitted on the operands, where `req` says when it is:
/// nothing is asked where an operand is undefined.
pub open spec fn binary_req<T, C: Constraint<T>>(
    left: ExpressionFor<T, C>,
    right: ExpressionFor<T, C>,
    req: spec_fn(T, T) -> bool,
) -> bool {
    left is Defined && right is Defined ==> req(left->Defined_0.value(), right->Defined_0.value())
}

impl<T: AddSpec<Output = T>, C: Constraint<T>> Add for Expression<Constrained<T, C>, C::Error> {
    type Output = Self;

    fn add(self, other: Self) -> (r: Self)
        ensures
            binary_ensures(
                self,
                other,
                r,
                |a: T, b: T, v: T| T::obeys_add_spec() ==> v == a.add_spec(b),
            ),
    {
        binary(self, other, |a: T, b: T| -> (v: T)
            requires
                a.add_req(b),
            ensures
                T::obeys_add_spec() ==> v == a.add_spec(b),
            { a.add(b) })
    }
}

impl<T: AddSpec<Output = T>, C: Constraint<T>> AddSpecImpl for Expression<Constrained<T, C>, C::Error> {
    open spec fn obeys_add_spec() -> bool {
        T::obeys_add_spec()
    }

    open spec fn add_req(self, other: Self) -> bool {
        binary_req(self, other, |a: T, b: T| a.add_req(b))
    }

    open spec fn add_spec(self, other: Self) -> Self {
        binary_spec(self, other, |a: T, b: T| a.add_spec(b))
    }
}

impl<T: AddSpec<Output = T>, C: Constraint<T>> Add<Constrained<T, C>> for Expression<Constrained<T, C>, C::Error> {
    type Output = Self;

    fn add(self, other: Constrained<T, C>) -> (r: Self)
        ensures
            binary_ensures(
                self,
                ExpressionFor::<T, C>::Defined(other),
                r,
                |a: T, b: T, v: T| T::obeys_add_spec() ==> v == a.add_spec(b),
            ),
    {
        binary(self, Defined(other), |a: T, b: T| -> (v: T)
            requires
                a.add_req(b),
            ensures
                T::obeys_add_spec() ==> v == a.add_spec(b),
            { a.add(b) })
    }
}

impl<T: AddSpec<Output = T>, C: Constraint<T>> AddSpecImpl<Constrained<T, C>> for Expression<Constrained<T, C>, C::Error> {
    open spec fn obeys_add_spec() -> bool {
        T::obeys_add_spec()
    }

    open spec fn add_req(self, other: Constrained<T, C>) -> bool {
        binary_req(self, ExpressionFor::<T, C>::Defined(other), |a: T, b: T| a.add_req(b))
    }

    open spec fn add_spec(self, other: Constrained<T, C>) -> Self {
        binary_spec(self, ExpressionFor::<T, C>::Defined(other), |a: T, b: T| a.add_spec(b))
    }
}

impl<T: AddSpec<Output = T>, C: Constraint<T>> Add<T> for Expression<Constrained<T, C>, C::Error> {
    type Output = Self;

    fn add(self, other: T) -> (r: Self)
        ensures
            binary_ensures(
                self,
                Constrained::<T, C>::construct_expression(other),
                r,
                |a: T, b: T, v: T| T::obeys_add_spec() ==> v == a.add_spec(b),
            ),
    {
        binary(self, Constrained::new(other), |a: T, b: T| -> (v: T)
            requires
                a.add_req(b),
            ensures
                T::obeys_add_spec() ==> v == a.add_spec(b),
            { a.add(b) })
    }
}

impl<T: AddSpec<Output = T>, C: Constraint<T>> AddSpecImpl<T> for Expression<Constrained<T, C>, C::Error> {
    open spec fn obeys_add_spec() -> bool {
        T::obeys_add_spec()
    }

    open spec fn add_req(self, other: T) -> bool {
        binary_req(self, Constrained::<T, C>::construct_expression(other), |a: T, b: T| a.add_req(b))
    }

    open spec fn add_spec(self, other: T) -> Self {
        binary_spec(self, Constrained::<T, C>::construct_expression(other), |a: T, b: T| a.add_spec(b))
    }
}

impl<T: AddSpec<Output = T>, C: Constraint<T>> Add<Expression<Constrained<T, C>, C::Error>> for Constrained<T, C> {
    type Output = Expression<Constrained<T, C>, C::Error>;

    fn add(self, other: Expression<Constrained<T, C>, C::Error>) -> (r: Expression<Constrained<T, C>, C::Error>)
        ensures
            binary_ensures(
                ExpressionFor::<T, C>::Defined(self),
                other,
                r,
                |a: T, b: T, v: T| T::obeys_add_spec() ==> v == a.add_spec(b),
            ),
    {
        binary(Defined(self), other, |a: T, b: T| -> (v: T)
            requires
                a.add_req(b),
            ensures
                T::obeys_add_spec() ==> v == a.add_spec(b),
            { a.add(b) })
    }
}

impl<T: AddSpec<Output = T>, C: Constraint<T>> AddSpecImpl<Expression<Constrained<T, C>, C::Error>> for Constrained<T, C> {
    open spec fn obeys_add_spec() -> bool {
        T::obeys_add_spec()
    }

    open spec fn add_req(self, other: Expression<Constrained<T, C>, C::Error>) -> bool {
        binary_req(ExpressionFor::<T, C>::Defined(self), other, |a: T, b: T| a.add_req(b))
    }

    open spec fn add_spec(self, other: Expression<Constrained<T, C>, C::Error>) -> Expression<Constrained<T, C>, C::Error> {
        binary_spec(ExpressionFor::<T, C>::Defined(self), other, |a: T, b: T| a.add_spec(b))
    }
}

impl<T: SubSpec<Output = T>, C: Constraint<T>> Sub for Expression<Constrained<T, C>, C::Error> {
    type Output = Self;

    fn sub(self, other: Self) -> (r: Self)
        ensures
            binary_ensures(
                self,
                other,
                r,
                |a: T, b: T, v: T| T::obeys_sub_spec() ==> v == a.sub_spec(b),
            ),
    {
        binary(self, other, |a: T, b: T| -> (v: T)
            requires
                a.sub_req(b),
            ensures
                T::obeys_sub_spec() ==> v == a.sub_spec(b),
            { a.sub(b) })
    }
}

impl<T: SubSpec<Output = T>, C: Constraint<T>> SubSpecImpl for Expression<Constrained<T, C>, C::Error> {
    open spec fn obeys_sub_spec() -> bool {
        T::obeys_sub_spec()
    }

    open spec fn sub_req(self, other: Self) -> bool {
        binary_req(self, other, |a: T, b: T| a.sub_req(b))
    }

    open spec fn sub_spec(self, other: Self) -> Self {
        binary_spec(self, other, |a: T, b: T| a.sub_spec(b))
    }
}

impl<T: SubSpec<Output = T>, C: Constraint<T>> Sub<Constrained<T, C>> for Expression<Constrained<T, C>, C::Error> {
    type Output = Self;

    fn sub(self, other: Constrained<T, C>) -> (r: Self)
        ensures
            binary_ensures(
                self,
                ExpressionFor::<T, C>::Defined(other),
                r,
                |a: T, b: T, v: T| T::obeys_sub_spec() ==> v == a.sub_spec(b),
            ),
    {
        binary(self, Defined(other), |a: T, b: T| -> (v: T)
            requires
                a.sub_req(b),
            ensures
                T::obeys_sub_spec() ==> v == a.sub_spec(b),
            { a.sub(b) })
    }
}

impl<T: SubSpec<Output = T>, C: Constraint<T>> SubSpecImpl<Constrained<T, C>> for Expression<Constrained<T, C>, C::Error> {
    open spec fn obeys_sub_spec() -> bool {
        T::obeys_sub_spec()
    }

    open spec fn sub_req(self, other: Constrained<T, C>) -> bool {
        binary_req(self, ExpressionFor::<T, C>::Defined(other), |a: T, b: T| a.sub_req(b))
    }

    open spec fn sub_spec(self, other: Constrained<T, C>) -> Self {
        binary_spec(self, ExpressionFor::<T, C>::Defined(other), |a: T, b: T| a.sub_spec(b))
    }
}

impl<T: SubSpec<Output = T>, C: Constraint<T>> Sub<T> for Expression<Constrained<T, C>, C::Error> {
    type Output = Self;

    fn sub(self, other: T) -> (r: Self)
        ensures
            binary_ensures(
                self,
                Constrained::<T, C>::construct_expression(other),
                r,
                |a: T, b: T, v: T| T::obeys_sub_spec() ==> v == a.sub_spec(b),
            ),
    {
        binary(self, Constrained::new(other), |a: T, b: T| -> (v: T)
            requires
                a.sub_req(b),
            ensures
                T::obeys_sub_spec() ==> v == a.sub_spec(b),
            { a.sub(b) })
    }
}

impl<T: SubSpec<Output = T>, C: Constraint<T>> SubSpecImpl<T> for Expression<Constrained<T, C>, C::Error> {
    open spec fn obeys_sub_spec() -> bool {
        T::obeys_sub_spec()
    }

    open spec fn sub_req(self, other: T) -> bool {
        binary_req(self, Constrained::<T, C>::construct_expression(other), |a: T, b: T| a.sub_req(b))
    }

    open spec fn sub_spec(self, other: T) -> Self {
        binary_spec(self, Constrained::<T, C>::construct_expression(other), |a: T, b: T| a.sub_spec(b))
    }
}

impl<T: SubSpec<Output = T>, C: Constraint<T>> Sub<Expression<Constrained<T, C>, C::Error>> for Constrained<T, C> {
    type Output = Expression<Constrained<T, C>, C::Error>;

    fn sub(self, other: Expression<Constrained<T, C>, C::Error>) -> (r: Expression<Constrained<T, C>, C::Error>)
        ensures
            binary_ensures(
                ExpressionFor::<T, C>::Defined(self),
                other,
                r,
                |a: T, b: T, v: T| T::obeys_sub_spec() ==> v == a.sub_spec(b),
            ),
    {
        binary(Defined(self), other, |a: T, b: T| -> (v: T)
            requires
                a.sub_req(b),
            ensures
                T::obeys_sub_spec() ==> v == a.sub_spec(b),
            { a.sub(b) })
    }
}

impl<T: SubSpec<Output = T>, C: Constraint<T>> SubSpecImpl<Expression<Constrained<T, C>, C::Error>> for Constrained<T, C> {
    open spec fn obeys_sub_spec() -> bool {
        T::obeys_sub_spec()
    }

    open spec fn sub_req(self, other: Expression<Constrained<T, C>, C::Error>) -> bool {
        binary_req(ExpressionFor::<T, C>::Defined(self), other, |a: T, b: T| a.sub_req(b))
    }

    open spec fn sub_spec(self, other: Expression<Constrained<T, C>, C::Error>) -> Expression<Constrained<T, C>, C::Error> {
        binary_spec(ExpressionFor::<T, C>::Defined(self), other, |a: T, b: T| a.sub_spec(b))
    }
}

impl<T: MulSpec<Output = T>, C: Constraint<T>> Mul for Expression<Constrained<T, C>, C::Error> {
    type Output = Self;

    fn mul(self, other: Self) -> (r: Self)
        ensures
            binary_ensures(
                self,
                other,
                r,
                |a: T, b: T, v: T| T::obeys_mul_spec() ==> v == a.mul_spec(b),
            ),
    {
        binary(self, other, |a: T, b: T| -> (v: T)
            requires
                a.mul_req(b),
            ensures
                T::obeys_mul_spec() ==> v == a.mul_spec(b),
            { a.mul(b) })
    }
}

impl<T: MulSpec<Output = T>, C: Constraint<T>> MulSpecImpl for Expression<Constrained<T, C>, C::Error> {
    open spec fn obeys_mul_spec() -> bool {
        T::obeys_mul_spec()
    }

    open spec fn mul_req(self, other: Self) -> bool {
        binary_req(self, other, |a: T, b: T| a.mul_req(b))
    }

    open spec fn mul_spec(self, other: Self) -> Self {
        binary_spec(self, other, |a: T, b: T| a.mul_spec(b))
    }
}

impl<T: MulSpec<Output = T>, C: Constraint<T>> Mul<Constrained<T, C>> for Expression<Constrained<T, C>, C::Error> {
    type Output = Self;

    fn mul(self, other: Constrained<T, C>) -> (r: Self)
        ensures
            binary_ensures(
                self,
                ExpressionFor::<T, C>::Defined(other),
                r,
                |a: T, b: T, v: T| T::obeys_mul_spec() ==> v == a.mul_spec(b),
            ),
    {
        binary(self, Defined(other), |a: T, b: T| -> (v: T)
            requires
                a.mul_req(b),
            ensures
                T::obeys_mul_spec() ==> v == a.mul_spec(b),
            { a.mul(b) })
    }
}

impl<T: MulSpec<Output = T>, C: Constraint<T>> MulSpecImpl<Constrained<T, C>> for Expression<Constrained<T, C>, C::Error> {
    open spec fn obeys_mul_spec() -> bool {
        T::obeys_mul_spec()
    }

    open spec fn mul_req(self, other: Constrained<T, C>) -> bool {
        binary_req(self, ExpressionFor::<T, C>::Defined(other), |a: T, b: T| a.mul_req(b))
    }

    open spec fn mul_spec(self, other: Constrained<T, C>) -> Self {
        binary_spec(self, ExpressionFor::<T, C>::Defined(other), |a: T, b: T| a.mul_spec(b))
    }
}

impl<T: MulSpec<Output = T>, C: Constraint<T>> Mul<T> for Expression<Constrained<T, C>, C::Error> {
    type Output = Self;

    fn mul(self, other: T) -> (r: Self)
        ensures
            binary_ensures(
                self,
                Constrained::<T, C>::construct_expression(other),
                r,
                |a: T, b: T, v: T| T::obeys_mul_spec() ==> v == a.mul_spec(b),
            ),
    {
        binary(self, Constrained::new(other), |a: T, b: T| -> (v: T)
            requires
                a.mul_req(b),
            ensures
                T::obeys_mul_spec() ==> v == a.mul_spec(b),
            { a.mul(b) })
    }
}

impl<T: MulSpec<Output = T>, C: Constraint<T>> MulSpecImpl<T> for Expression<Constrained<T, C>, C::Error> {
    open spec fn obeys_mul_spec() -> bool {
        T::obeys_mul_spec()
    }

    open spec fn mul_req(self, other: T) -> bool {
        binary_req(self, Constrained::<T, C>::construct_expression(other), |a: T, b: T| a.mul_req(b))
    }

    open spec fn mul_spec(self, other: T) -> Self {
        binary_spec(self, Constrained::<T, C>::construct_expression(other), |a: T, b: T| a.mul_spec(b))
    }
}

impl<T: MulSpec<Output = T>, C: Constraint<T>> Mul<Expression<Constrained<T, C>, C::Error>> for Constrained<T, C> {
    type Output = Expression<Constrained<T, C>, C::Error>;

    fn mul(self, other: Expression<Constrained<T, C>, C::Error>) -> (r: Expression<Constrained<T, C>, C::Error>)
        ensures
            binary_ensures(
                ExpressionFor::<T, C>::Defined(self),
                other,
                r,
                |a: T, b: T, v: T| T::obeys_mul_spec() ==> v == a.mul_spec(b),
            ),
    {
        binary(Defined(self), other, |a: T, b: T| -> (v: T)
            requires
                a.mul_req(b),
            ensures
                T::obeys_mul_spec() ==> v == a.mul_spec(b),
            { a.mul(b) })
    }
}

impl<T: MulSpec<Output = T>, C: Constraint<T>> MulSpecImpl<Expression<Constrained<T, C>, C::Error>> for Constrained<T, C> {
    open spec fn obeys_mul_spec() -> bool {
        T::obeys_mul_spec()
    }

    open spec fn mul_req(self, other: Expression<Constrained<T, C>, C::Error>) -> bool {
        binary_req(ExpressionFor::<T, C>::Defined(self), other, |a: T, b: T| a.mul_req(b))
    }

    open spec fn mul_spec(self, other: Expression<Constrained<T, C>, C::Error>) -> Expression<Constrained<T, C>, C::Error> {
        binary_spec(ExpressionFor::<T, C>::Defined(self), other, |a: T, b: T| a.mul_spec(b))
    }
}

impl<T: DivSpec<Output = T>, C: Constraint<T>> Div for Expression<Constrained<T, C>, C::Error> {
    type Output = Self;

    fn div(self, other: Self) -> (r: Self)
        ensures
            binary_ensures(
                self,
                other,
                r,
                |a: T, b: T, v: T| T::obeys_div_spec() ==> v == a.div_spec(b),
            ),
    {
        binary(self, other, |a: T, b: T| -> (v: T)
            requires
                a.div_req(b),
            ensures
                T::obeys_div_spec() ==> v == a.div_spec(b),
            { a.div(b) })
    }
}

impl<T: DivSpec<Output = T>, C: Constraint<T>> DivSpecImpl for Expression<Constrained<T, C>, C::Error> {
    open spec fn obeys_div_spec() -> bool {
        T::obeys_div_spec()
    }

    open spec fn div_req(self, other: Self) -> bool {
        binary_req(self, other, |a: T, b: T| a.div_req(b))
    }

    open spec fn div_spec(self, other: Self) -> Self {
        binary_spec(self, other, |a: T, b: T| a.div_spec(b))
    }
}

impl<T: DivSpec<Output = T>, C: Constraint<T>> Div<Constrained<T, C>> for Expression<Constrained<T, C>, C::Error> {
    type Output = Self;

    fn div(self, other: Constrained<T, C>) -> (r: Self)
        ensures
            binary_ensures(
                self,
                ExpressionFor::<T, C>::Defined(other),
                r,
                |a: T, b: T, v: T| T::obeys_div_spec() ==> v == a.div_spec(b),
            ),
    {
        binary(self, Defined(other), |a: T, b: T| -> (v: T)
            requires
                a.div_req(b),
            ensures
                T::obeys_div_spec() ==> v == a.div_spec(b),
            { a.div(b) })
    }
}

impl<T: DivSpec<Output = T>, C: Constraint<T>> DivSpecImpl<Constrained<T, C>> for Expression<Constrained<T, C>, C::Error> {
    open spec fn obeys_div_spec() -> bool {
        T::obeys_div_spec()
    }

    open spec fn div_req(self, other: Constrained<T, C>) -> bool {
        binary_req(self, ExpressionFor::<T, C>::Defined(other), |a: T, b: T| a.div_req(b))
    }

    open spec fn div_spec(self, other: Constrained<T, C>) -> Self {
        binary_spec(self, ExpressionFor::<T, C>::Defined(other), |a: T, b: T| a.div_spec(b))
    }
}

impl<T: DivSpec<Output = T>, C: Constraint<T>> Div<T> for Expression<Constrained<T, C>, C::Error> {
    type Output = Self;

    fn div(self, other: T) -> (r: Self)
        ensures
            binary_ensures(
                self,
                Constrained::<T, C>::construct_expression(other),
                r,
                |a: T, b: T, v: T| T::obeys_div_spec() ==> v == a.div_spec(b),
            ),
    {
        binary(self, Constrained::new(other), |a: T, b: T| -> (v: T)
            requires
                a.div_req(b),
            ensures
                T::obeys_div_spec() ==> v == a.div_spec(b),
            { a.div(b) })
    }
}

impl<T: DivSpec<Output = T>, C: Constraint<T>> DivSpecImpl<T> for Expression<Constrained<T, C>, C::Error> {
    open spec fn obeys_div_spec() -> bool {
        T::obeys_div_spec()
    }

    open spec fn div_req(self, other: T) -> bool {
        binary_req(self, Constrained::<T, C>::construct_expression(other), |a: T, b: T| a.div_req(b))
    }

    open spec fn div_spec(self, other: T) -> Self {
        binary_spec(self, Constrained::<T, C>::construct_expression(other), |a: T, b: T| a.div_spec(b))
    }
}

impl<T: DivSpec<Output = T>, C: Constraint<T>> Div<Expression<Constrained<T, C>, C::Error>> for Constrained<T, C> {
    type Output = Expression<Constrained<T, C>, C::Error>;

    fn div(self, other: Expression<Constrained<T, C>, C::Error>) -> (r: Expression<Constrained<T, C>, C::Error>)
        ensures
            binary_ensures(
                ExpressionFor::<T, C>::Defined(self),
                other,
                r,
                |a: T, b: T, v: T| T::obeys_div_spec() ==> v == a.div_spec(b),
            ),
    {
        binary(Defined(self), other, |a: T, b: T| -> (v: T)
            requires
                a.div_req(b),
            ensures
                T::obeys_div_spec() ==> v == a.div_spec(b),
            { a.div(b) })
    }
}

impl<T: DivSpec<Output = T>, C: Constraint<T>> DivSpecImpl<Expression<Constrained<T, C>, C::Error>> for Constrained<T, C> {
    open spec fn obeys_div_spec() -> bool {
        T::obeys_div_spec()
    }

    open spec fn div_req(self, other: Expression<Constrained<T, C>, C::Error>) -> bool {
        binary_req(ExpressionFor::<T, C>::Defined(self), other, |a: T, b: T| a.div_req(b))
    }

    open spec fn div_spec(self, other: Expression<Constrained<T, C>, C::Error>) -> Expression<Constrained<T, C>, C::Error> {
        binary_spec(ExpressionFor::<T, C>::Defined(self), other, |a: T, b: T| a.div_spec(b))
    }
}

impl<T: RemSpec<Output = T>, C: Constraint<T>> Rem for Expression<Constrained<T, C>, C::Error> {
    type Output = Self;

    fn rem(self, other: Self) -> (r: Self)
        ensures
            binary_ensures(
                self,
                other,
                r,
                |a: T, b: T, v: T| T::obeys_rem_spec() ==> v == a.rem_spec(b),
            ),
    {
        binary(self, other, |a: T, b: T| -> (v: T)
            requires
                a.rem_req(b),
            ensures
                T::obeys_rem_spec() ==> v == a.rem_spec(b),
            { a.rem(b) })
    }
}

impl<T: RemSpec<Output = T>, C: Constraint<T>> RemSpecImpl for Expression<Constrained<T, C>, C::Error> {
    open spec fn obeys_rem_spec() -> bool {
        T::obeys_rem_spec()
    }

    open spec fn rem_req(self, other: Self) -> bool {
        binary_req(self, other, |a: T, b: T| a.rem_req(b))
    }

    open spec fn rem_spec(self, other: Self) -> Self {
        binary_spec(self, other, |a: T, b: T| a.rem_spec(b))
    }
}

impl<T: RemSpec<Output = T>, C: Constraint<T>> Rem<Constrained<T, C>> for Expression<Constrained<T, C>, C::Error> {
    type Output = Self;

    fn rem(self, other: Constrained<T, C>) -> (r: Self)
        ensures
            binary_ensures(
                self,
                ExpressionFor::<T, C>::Defined(other),
                r,
                |a: T, b: T, v: T| T::obeys_rem_spec() ==> v == a.rem_spec(b),
            ),
    {
        binary(self, Defined(other), |a: T, b: T| -> (v: T)
            requires
                a.rem_req(b),
            ensures
                T::obeys_rem_spec() ==> v == a.rem_spec(b),
            { a.rem(b) })
    }
}

impl<T: RemSpec<Output = T>, C: Constraint<T>> RemSpecImpl<Constrained<T, C>> for Expression<Constrained<T, C>, C::Error> {
    open spec fn obeys_rem_spec() -> bool {
        T::obeys_rem_spec()
    }

    open spec fn rem_req(self, other: Constrained<T, C>) -> bool {
        binary_req(self, ExpressionFor::<T, C>::Defined(other), |a: T, b: T| a.rem_req(b))
    }

    open spec fn rem_spec(self, other: Constrained<T, C>) -> Self {
        binary_spec(self, ExpressionFor::<T, C>::Defined(other), |a: T, b: T| a.rem_spec(b))
    }
}

impl<T: RemSpec<Output = T>, C: Constraint<T>> Rem<T> for Expression<Constrained<T, C>, C::Error> {
    type Output = Self;

    fn rem(self, other: T) -> (r: Self)
        ensures
            binary_ensures(
                self,
                Constrained::<T, C>::construct_expression(other),
                r,
                |a: T, b: T, v: T| T::obeys_rem_spec() ==> v == a.rem_spec(b),
            ),
    {
        binary(self, Constrained::new(other), |a: T, b: T| -> (v: T)
            requires
                a.rem_req(b),
            ensures
                T::obeys_rem_spec() ==> v == a.rem_spec(b),
            { a.rem(b) })
    }
}

impl<T: RemSpec<Output = T>, C: Constraint<T>> RemSpecImpl<T> for Expression<Constrained<T, C>, C::Error> {
    open spec fn obeys_rem_spec() -> bool {
        T::obeys_rem_spec()
    }

    open spec fn rem_req(self, other: T) -> bool {
        binary_req(self, Constrained::<T, C>::construct_expression(other), |a: T, b: T| a.rem_req(b))
    }

    open spec fn rem_spec(self, other: T) -> Self {
        binary_spec(self, Constrained::<T, C>::construct_expression(other), |a: T, b: T| a.rem_spec(b))
    }
}

impl<T: RemSpec<Output = T>, C: Constraint<T>> Rem<Expression<Constrained<T, C>, C::Error>> for Constrained<T, C> {
    type Output = Expression<Constrained<T, C>, C::Error>;

    fn rem(self, other: Expression<Constrained<T, C>, C::Error>) -> (r: Expression<Constrained<T, C>, C::Error>)
        ensures
            binary_ensures(
                ExpressionFor::<T, C>::Defined(self),
                other,
                r,
                |a: T, b: T, v: T| T::obeys_rem_spec() ==> v == a.rem_spec(b),
            ),
    {
        binary(Defined(self), other, |a: T, b: T| -> (v: T)
            requires
                a.rem_req(b),
            ensures
                T::obeys_rem_spec() ==> v == a.rem_spec(b),
            { a.rem(b) })
    }
}

impl<T: RemSpec<Output = T>, C: Constraint<T>> RemSpecImpl<Expression<Constrained<T, C>, C::Error>> for Constrained<T, C> {
    open spec fn obeys_rem_spec() -> bool {
        T::obeys_rem_spec()
    }

    open spec fn rem_req(self, other: Expression<Constrained<T, C>, C::Error>) -> bool {
        binary_req(ExpressionFor::<T, C>::Defined(self), other, |a: T, b: T| a.rem_req(b))
    }

    open spec fn rem_spec(self, other: Expression<Constrained<T, C>, C::Error>) -> Expression<Constrained<T, C>, C::Error> {
        binary_spec(ExpressionFor::<T, C>::Defined(self), other, |a: T, b: T| a.rem_spec(b))
    }
}

impl<T: NegSpec<Output = T>, C: Constraint<T>> Neg for Expression<Constrained<T, C>, C::Error> {
    type Output = Self;

    fn neg(self) -> (r: Self)
        ensures
            unary_ensures(self, r, |a: T, v: T| T::obeys_neg_spec() ==> v == a.neg_spec()),
    {
        unary(self, |a: T| -> (v: T)
            requires
                a.neg_req(),
            ensures
                T::obeys_neg_spec() ==> v == a.neg_spec(),
            { a.neg() })
    }
}

impl<T: NegSpec<Output = T>, C: Constraint<T>> NegSpecImpl for Expression<Constrained<T, C>, C::Error> {
    open spec fn obeys_neg_spec() -> bool {
        T::obeys_neg_spec()
    }

    open spec fn neg_req(self) -> bool {
        self is Defined ==> self->Defined_0.value().neg_req()
    }

    open spec fn neg_spec(self) -> Self {
        unary_spec(self, |a: T| a.neg_spec())
    }
}

} // verus!
