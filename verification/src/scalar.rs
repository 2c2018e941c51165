//! What the vector types ask of a scalar type.
//!
//! Arithmetic comes from the operator traits of `core::ops`; `add_returns`
//! and its like tell what an operator may return. Identity elements, the
//! absolute value and the square root come from the traits declared here.
//! [`Integral`] and [`SignedIntegral`] describe scalars that stand for
//! mathematical integers; the algebraic laws of the vector types are proved
//! for them.

use core::ops::Add;
use core::ops::Div;
use core::ops::Mul;
use core::ops::Neg;
use core::ops::Sub;
use vstd::prelude::*;
use vstd::std_specs::ops::AddSpec;
use vstd::std_specs::ops::MulSpec;
use vstd::std_specs::ops::NegSpec;
use vstd::std_specs::ops::SubSpec;

pub mod isqrt;
pub mod signed;
pub mod unsigned;

verus! {

/// Whether `a + b` may return `r`: whether `r` is a result that `+` on `T`
/// ensures for `a` and `b`.
pub open spec fn add_returns<T: Add<Output = T>>(a: T, b: T, r: T) -> bool {
    call_ensures(<T as Add>::add, (a, b), r)
}

/// Whether `a - b` may return `r`.
pub open spec fn sub_returns<T: Sub<Output = T>>(a: T, b: T, r: T) -> bool {
    call_ensures(<T as Sub>::sub, (a, b), r)
}

/// Whether `a * b` may return `r`.
pub open spec fn mul_returns<T: Mul<Output = T>>(a: T, b: T, r: T) -> bool {
    call_ensures(<T as Mul>::mul, (a, b), r)
}

/// Whether `a / b` may return `r`.
pub open spec fn div_returns<T: Div<Output = T>>(a: T, b: T, r: T) -> bool {
    call_ensures(<T as Div>::div, (a, b), r)
}

/// Whether `-a` may return `r`.
pub open spec fn neg_returns<T: Neg<Output = T>>(a: T, r: T) -> bool {
    call_ensures(<T as Neg>::neg, (a,), r)
}

/// Whether `a == b` may return `r`.
pub open spec fn eq_returns<T: PartialEq>(a: T, b: T, r: bool) -> bool {
    call_ensures(<T as PartialEq>::eq, (&a, &b), r)
}

/// A scalar type with an additive identity.
pub trait Zero: Sized {
    /// The additive identity.
    spec fn zero_spec() -> Self;

    /// Returns the additive identity.
    fn zero() -> (r: Self)
        ensures
            r == Self::zero_spec(),
    ;

    /// Tells whether `self` is the additive identity.
    fn is_zero(&self) -> (b: bool)
        ensures
            b == (*self == Self::zero_spec()),
    ;
}

/// A scalar type with a multiplicative identity.
pub trait One: Sized {
    /// The multiplicative identity.
    spec fn one_spec() -> Self;

    /// Returns the multiplicative identity.
    fn one() -> (r: Self)
        ensures
            r == Self::one_spec(),
    ;
}

/// A scalar type with an absolute value.
pub trait Signed: Sized {
    /// Whether the absolute value of `self` can be computed.
    spec fn abs_req(self) -> bool;

    /// The absolute value of `self`.
    spec fn abs_spec(self) -> Self;

    /// Returns the absolute value of `self`.
    fn abs(&self) -> (r: Self)
        requires
            self.abs_req(),
        ensures
            r == self.abs_spec(),
    ;
}

/// A scalar type with a square root.
pub trait Algebraic: Sized {
    /// Whether the square root of `self` can be computed.
    spec fn sqrt_req(self) -> bool;

    /// The square root of `self`.
    spec fn sqrt_spec(self) -> Self;

    /// Returns the square root of `self`.
    fn sqrt(&self) -> (r: Self)
        requires
            self.sqrt_req(),
        ensures
            r == self.sqrt_spec(),
    ;
}

/// A scalar type whose values stand for mathematical integers.
///
/// An operator can be applied exactly when the integer result has a
/// representation in the type, and then it returns that representation.
pub trait Integral:
    Copy + Zero + One + Algebraic + Add<Output = Self> + Sub<Output = Self> + Mul<Output = Self>
{
    /// The integer that `self` stands for.
    spec fn value(self) -> int;

    /// Whether some value of the type stands for `v`.
    spec fn representable(v: int) -> bool;

    /// Every value stands for a representable integer, and for no other
    /// value's integer.
    proof fn lemma_value(a: Self, b: Self)
        ensures
            Self::representable(a.value()),
            a.value() == b.value() ==> a == b,
    ;

    /// The operators return what their specifications say, so that code
    /// generic over integral scalars can call the vector operations.
    proof fn lemma_obeys()
        ensures
            Self::obeys_add_spec(),
            Self::obeys_sub_spec(),
            Self::obeys_mul_spec(),
    ;

    /// The identities stand for 0 and 1.
    proof fn lemma_identities()
        ensures
            Self::zero_spec().value() == 0,
            Self::one_spec().value() == 1,
    ;

    /// `+` is integer addition.
    proof fn lemma_add(a: Self, b: Self)
        ensures
            a.add_req(b) <==> Self::representable(a.value() + b.value()),
            a.add_req(b) ==> a.add_spec(b).value() == a.value() + b.value(),
    ;

    /// `-` is integer subtraction.
    proof fn lemma_sub(a: Self, b: Self)
        ensures
            a.sub_req(b) <==> Self::representable(a.value() - b.value()),
            a.sub_req(b) ==> a.sub_spec(b).value() == a.value() - b.value(),
    ;

    /// `*` is integer multiplication.
    proof fn lemma_mul(a: Self, b: Self)
        ensures
            a.mul_req(b) <==> Self::representable(a.value() * b.value()),
            a.mul_req(b) ==> a.mul_spec(b).value() == a.value() * b.value(),
    ;

    /// The square root is the integer square root, taken of what is not
    /// negative.
    proof fn lemma_sqrt(a: Self)
        ensures
            a.sqrt_req() <==> a.value() >= 0,
            a.sqrt_req() ==> isqrt::is_isqrt(a.value(), a.sqrt_spec().value()),
    ;
}

/// An integral scalar type with negative values.
pub trait SignedIntegral: Integral + Signed + Neg<Output = Self> {
    /// Unary `-` returns what its specification says.
    proof fn lemma_obeys_neg()
        ensures
            Self::obeys_neg_spec(),
    ;

    /// Unary `-` is integer negation.
    proof fn lemma_neg(a: Self)
        ensures
            a.neg_req() <==> Self::representable(-a.value()),
            a.neg_req() ==> a.neg_spec().value() == -a.value(),
    ;

    /// The absolute value is that of the integer.
    proof fn lemma_abs(a: Self)
        ensures
            a.abs_req() <==> Self::representable(vstd::math::abs(a.value()) as int),
            a.abs_req() ==> a.abs_spec().value() == vstd::math::abs(a.value()),
    ;
}

/// Adding zero to an integral scalar changes nothing: `a + 0 == a`.
pub proof fn lemma_add_zero<T: Integral>(a: T)
    ensures
        a.add_req(T::zero_spec()),
        a.add_spec(T::zero_spec()) == a,
{
    T::lemma_identities();
    T::lemma_add(a, T::zero_spec());
    T::lemma_value(a, a.add_spec(T::zero_spec()));
}

/// Addition of integral scalars is commutative: `a + b == b + a`, wherever
/// the sum can be computed.
pub proof fn lemma_add_commutative<T: Integral>(a: T, b: T)
    requires
        a.add_req(b),
    ensures
        b.add_req(a),
        a.add_spec(b) == b.add_spec(a),
{
    T::lemma_add(a, b);
    T::lemma_add(b, a);
    T::lemma_value(a.add_spec(b), b.add_spec(a));
}

/// Addition of integral scalars is associative:
/// `(a + b) + c == a + (b + c)`, wherever both sides can be computed.
pub proof fn lemma_add_associative<T: Integral>(a: T, b: T, c: T)
    requires
        a.add_req(b),
        a.add_spec(b).add_req(c),
        b.add_req(c),
        a.add_req(b.add_spec(c)),
    ensures
        a.add_spec(b).add_spec(c) == a.add_spec(b.add_spec(c)),
{
    T::lemma_add(a, b);
    T::lemma_add(a.add_spec(b), c);
    T::lemma_add(b, c);
    T::lemma_add(a, b.add_spec(c));
    T::lemma_value(a.add_spec(b).add_spec(c), a.add_spec(b.add_spec(c)));
}

/// Multiplication of integral scalars is commutative: `a * b == b * a`,
/// wherever the product can be computed.
pub proof fn lemma_mul_commutative<T: Integral>(a: T, b: T)
    requires
        a.mul_req(b),
    ensures
        b.mul_req(a),
        a.mul_spec(b) == b.mul_spec(a),
{
    T::lemma_mul(a, b);
    T::lemma_mul(b, a);
    vstd::arithmetic::mul::lemma_mul_is_commutative(a.value(), b.value());
    T::lemma_value(a.mul_spec(b), b.mul_spec(a));
}

/// Multiplication of integral scalars distributes over addition:
/// `(a + b) * s == a * s + b * s`, wherever the sum and the three products
/// can be computed.
pub proof fn lemma_mul_distributive<T: Integral>(a: T, b: T, s: T)
    requires
        a.add_req(b),
        a.add_spec(b).mul_req(s),
        a.mul_req(s),
        b.mul_req(s),
    ensures
        a.mul_spec(s).add_req(b.mul_spec(s)),
        a.add_spec(b).mul_spec(s) == a.mul_spec(s).add_spec(b.mul_spec(s)),
{
    T::lemma_add(a, b);
    T::lemma_mul(a.add_spec(b), s);
    T::lemma_mul(a, s);
    T::lemma_mul(b, s);
    vstd::arithmetic::mul::lemma_mul_is_distributive_add_other_way(
        s.value(),
        a.value(),
        b.value(),
    );
    T::lemma_add(a.mul_spec(s), b.mul_spec(s));
    T::lemma_value(a.add_spec(b).mul_spec(s), a.mul_spec(s).add_spec(b.mul_spec(s)));
}

/// An integral scalar and its negation add up to zero: `a + (-a) == 0`,
/// wherever the negation can be computed.
pub proof fn lemma_add_neg<T: SignedIntegral>(a: T)
    requires
        a.neg_req(),
    ensures
        a.add_req(a.neg_spec()),
        a.add_spec(a.neg_spec()) == T::zero_spec(),
{
    T::lemma_identities();
    T::lemma_value(T::zero_spec(), T::zero_spec());
    T::lemma_neg(a);
    T::lemma_add(a, a.neg_spec());
    T::lemma_value(a.add_spec(a.neg_spec()), T::zero_spec());
}

/// Negation of an integral scalar is subtraction from zero: `-a == 0 - a`,
/// wherever the negation can be computed.
pub proof fn lemma_neg_is_zero_sub<T: SignedIntegral>(a: T)
    requires
        a.neg_req(),
    ensures
        T::zero_spec().sub_req(a),
        a.neg_spec() == T::zero_spec().sub_spec(a),
{
    T::lemma_identities();
    T::lemma_neg(a);
    T::lemma_sub(T::zero_spec(), a);
    T::lemma_value(a.neg_spec(), T::zero_spec().sub_spec(a));
}

/// The absolute value of an integral scalar is the square root of its
/// square: `|a| == sqrt(a * a)`, wherever the absolute value and the square
/// can be computed.
pub proof fn lemma_abs_is_sqrt_of_square<T: SignedIntegral>(a: T)
    requires
        a.abs_req(),
        a.mul_req(a),
    ensures
        a.mul_spec(a).sqrt_req(),
        a.abs_spec() == a.mul_spec(a).sqrt_spec(),
{
    T::lemma_abs(a);
    T::lemma_mul(a, a);
    T::lemma_sqrt(a.mul_spec(a));
    let n = a.value() * a.value();
    let r = a.abs_spec().value();
    assert(r * r == n && n < (r + 1) * (r + 1)) by (nonlinear_arith)
        requires
            r >= 0,
            r == a.value() || r == -a.value(),
            n == a.value() * a.value(),
    ;
    isqrt::lemma_isqrt_unique(n, r, a.mul_spec(a).sqrt_spec().value());
    T::lemma_value(a.abs_spec(), a.mul_spec(a).sqrt_spec());
}

} // verus!
