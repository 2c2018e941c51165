//! Vectors of one component.

use crate::scalar;
use crate::scalar::Integral;
use crate::scalar::One;
use crate::scalar::Signed;
use crate::scalar::SignedIntegral;
use crate::scalar::Zero;
use core::ops::Add;
use core::ops::Div;
use core::ops::Mul;
use core::ops::Neg;
use core::ops::Sub;
use vstd::prelude::*;
use vstd::std_specs::cmp::PartialEqSpec;
use vstd::std_specs::ops::AddSpec;
use vstd::std_specs::ops::DivSpec;
use vstd::std_specs::ops::MulSpec;
use vstd::std_specs::ops::NegSpec;
use vstd::std_specs::ops::SubSpec;

verus! {

/// A vector of one component, `x`.
#[derive(Debug)]
pub struct Vector1<T> {
    pub x: T,
}

impl<T: Copy> Copy for Vector1<T> {

}

impl<T: Copy> Clone for Vector1<T> {
    /// Returns a copy of `self`.
    fn clone(&self) -> (r: Vector1<T>)
        ensures
            r == *self,
    {
        *self
    }
}

impl<T: PartialEq> Vector1<T> {
    /// Whether `self == other` may return `r`.
    pub open spec fn eq_returns(self, other: Vector1<T>, r: bool) -> bool {
        scalar::eq_returns(self.x, other.x, r)
    }
}

impl<T: PartialEq> vstd::std_specs::cmp::PartialEqSpecImpl for Vector1<T> {
    /// `==` on vectors returns what `eq_spec` says whenever `==` on `T` does.
    open spec fn obeys_eq_spec() -> bool {
        T::obeys_eq_spec()
    }

    /// Two vectors are equal when their components are.
    open spec fn eq_spec(&self, other: &Vector1<T>) -> bool {
        self.x.eq_spec(&other.x)
    }
}

impl<T: PartialEq> PartialEq for Vector1<T> {
    /// Tells whether the components of `self` and `other` are equal.
    fn eq(&self, other: &Vector1<T>) -> (r: bool)
        ensures
            self.eq_returns(*other, r),
            T::obeys_eq_spec() ==> r == self.x.eq_spec(&other.x),
    {
        self.x == other.x
    }
}

impl<T> Vector1<T> {
    /// The vector with the given component.
    pub fn new(x: T) -> (r: Vector1<T>)
        ensures
            r == (Vector1 { x }),
    {
        Vector1 { x }
    }
}

impl<T: Zero> Zero for Vector1<T> {
    /// The vector whose component is zero.
    open spec fn zero_spec() -> Vector1<T> {
        Vector1 { x: T::zero_spec() }
    }

    /// Returns the zero vector.
    fn zero() -> (r: Vector1<T>)
        ensures
            r == (Vector1 { x: T::zero_spec() }),
    {
        Vector1 { x: Zero::zero() }
    }

    /// Tells whether the component is zero.
    fn is_zero(&self) -> (b: bool)
        ensures
            b == (self.x == T::zero_spec()),
    {
        self.x.is_zero()
    }
}

impl<T: Add<Output = T>> Vector1<T> {
    /// Whether `self + rhs` may return `r`: whether the component of `r` is
    /// what `+` on `T` may return for the components of `self` and `rhs`.
    pub open spec fn add_returns(self, rhs: Vector1<T>, r: Vector1<T>) -> bool {
        scalar::add_returns(self.x, rhs.x, r.x)
    }
}

impl<T: Add<Output = T>> vstd::std_specs::ops::AddSpecImpl for Vector1<T> {
    /// `+` on vectors returns what `add_spec` says whenever `+` on `T` does.
    open spec fn obeys_add_spec() -> bool {
        T::obeys_add_spec()
    }

    /// Whether the sum of the components can be computed.
    open spec fn add_req(self, rhs: Vector1<T>) -> bool {
        self.x.add_req(rhs.x)
    }

    /// The componentwise sum.
    open spec fn add_spec(self, rhs: Vector1<T>) -> Vector1<T> {
        Vector1 { x: self.x.add_spec(rhs.x) }
    }
}

impl<T: Add<Output = T>> Add for Vector1<T> {
    type Output = Vector1<T>;

    /// Returns the sum. Requires `self.add_req(rhs)`.
    fn add(self, rhs: Vector1<T>) -> (r: Vector1<T>)
        ensures
            self.add_returns(rhs, r),
            T::obeys_add_spec() ==> r == (Vector1 { x: self.x.add_spec(rhs.x) }),
    {
        Vector1 { x: self.x + rhs.x }
    }
}

impl<T: Sub<Output = T>> Vector1<T> {
    /// Whether `self - rhs` may return `r`: whether the component of `r` is
    /// what `-` on `T` may return for the components of `self` and `rhs`.
    pub open spec fn sub_returns(self, rhs: Vector1<T>, r: Vector1<T>) -> bool {
        scalar::sub_returns(self.x, rhs.x, r.x)
    }
}

impl<T: Sub<Output = T>> vstd::std_specs::ops::SubSpecImpl for Vector1<T> {
    /// `-` on vectors returns what `sub_spec` says whenever `-` on `T` does.
    open spec fn obeys_sub_spec() -> bool {
        T::obeys_sub_spec()
    }

    /// Whether the difference of the components can be computed.
    open spec fn sub_req(self, rhs: Vector1<T>) -> bool {
        self.x.sub_req(rhs.x)
    }

    /// The componentwise difference.
    open spec fn sub_spec(self, rhs: Vector1<T>) -> Vector1<T> {
        Vector1 { x: self.x.sub_spec(rhs.x) }
    }
}

impl<T: Sub<Output = T>> Sub for Vector1<T> {
    type Output = Vector1<T>;

    /// Returns the difference. Requires `self.sub_req(rhs)`.
    fn sub(self, rhs: Vector1<T>) -> (r: Vector1<T>)
        ensures
            self.sub_returns(rhs, r),
            T::obeys_sub_spec() ==> r == (Vector1 { x: self.x.sub_spec(rhs.x) }),
    {
        Vector1 { x: self.x - rhs.x }
    }
}

impl<T: Neg<Output = T>> Vector1<T> {
    /// Whether `-self` may return `r`: whether the component of `r` is what `-`
    /// on `T` may return for the component of `self`.
    pub open spec fn neg_returns(self, r: Vector1<T>) -> bool {
        scalar::neg_returns(self.x, r.x)
    }
}

impl<T: Neg<Output = T>> vstd::std_specs::ops::NegSpecImpl for Vector1<T> {
    /// `-` on vectors returns what `neg_spec` says whenever `-` on `T` does.
    open spec fn obeys_neg_spec() -> bool {
        T::obeys_neg_spec()
    }

    /// Whether the negation of the component can be computed.
    open spec fn neg_req(self) -> bool {
        self.x.neg_req()
    }

    /// The componentwise negation.
    open spec fn neg_spec(self) -> Vector1<T> {
        Vector1 { x: self.x.neg_spec() }
    }
}

impl<T: Neg<Output = T>> Neg for Vector1<T> {
    type Output = Vector1<T>;

    /// Returns the negation. Requires `self.neg_req()`.
    fn neg(self) -> (r: Vector1<T>)
        ensures
            self.neg_returns(r),
            T::obeys_neg_spec() ==> r == (Vector1 { x: self.x.neg_spec() }),
    {
        Vector1 { x: self.x.neg() }
    }
}

impl<T: Mul<Output = T> + Copy> Vector1<T> {
    /// Whether `self * rhs` may return `r`: whether the component of `r` is
    /// what `*` on `T` may return for the component of `self` and `rhs`.
    pub open spec fn mul_returns(self, rhs: T, r: Vector1<T>) -> bool {
        scalar::mul_returns(self.x, rhs, r.x)
    }
}

impl<T: Mul<Output = T> + Copy> vstd::std_specs::ops::MulSpecImpl<T> for Vector1<T> {
    /// `*` by a scalar returns what `mul_spec` says whenever `*` on `T` does.
    open spec fn obeys_mul_spec() -> bool {
        T::obeys_mul_spec()
    }

    /// Whether the component can be multiplied by `rhs`.
    open spec fn mul_req(self, rhs: T) -> bool {
        self.x.mul_req(rhs)
    }

    /// The component multiplied by the scalar `rhs`.
    open spec fn mul_spec(self, rhs: T) -> Vector1<T> {
        Vector1 { x: self.x.mul_spec(rhs) }
    }
}

impl<T: Mul<Output = T> + Copy> Mul<T> for Vector1<T> {
    type Output = Vector1<T>;

    /// Returns the product. Requires `self.mul_req(rhs)`.
    fn mul(self, rhs: T) -> (r: Vector1<T>)
        ensures
            self.mul_returns(rhs, r),
            T::obeys_mul_spec() ==> r == (Vector1 { x: self.x.mul_spec(rhs) }),
    {
        Vector1 { x: self.x * rhs }
    }
}

impl<T: Mul<Output = T> + Copy> Vector1<T> {
    /// Multiplies the component by the scalar `rhs`, in place.
    pub fn mul_assign(&mut self, rhs: &T)
        requires
            old(self).mul_req(*rhs),
        ensures
            old(self).mul_returns(*rhs, *final(self)),
            T::obeys_mul_spec() ==> *final(self) == old(self).mul_spec(*rhs),
    {
        self.x = self.x * *rhs;
    }
}

impl<T: Div<Output = T> + Copy> Vector1<T> {
    /// Whether `self / rhs` may return `r`: whether the component of `r` is
    /// what `/` on `T` may return for the component of `self` and `rhs`.
    pub open spec fn div_returns(self, rhs: T, r: Vector1<T>) -> bool {
        scalar::div_returns(self.x, rhs, r.x)
    }
}

impl<T: Div<Output = T> + Copy> vstd::std_specs::ops::DivSpecImpl<T> for Vector1<T> {
    /// `/` by a scalar returns what `div_spec` says whenever `/` on `T` does.
    open spec fn obeys_div_spec() -> bool {
        T::obeys_div_spec()
    }

    /// Whether the component can be divided by `rhs`.
    open spec fn div_req(self, rhs: T) -> bool {
        self.x.div_req(rhs)
    }

    /// The component divided by the scalar `rhs`.
    open spec fn div_spec(self, rhs: T) -> Vector1<T> {
        Vector1 { x: self.x.div_spec(rhs) }
    }
}

impl<T: Div<Output = T> + Copy> Div<T> for Vector1<T> {
    type Output = Vector1<T>;

    /// Returns the quotient. Requires `self.div_req(rhs)`.
    fn div(self, rhs: T) -> (r: Vector1<T>)
        ensures
            self.div_returns(rhs, r),
            T::obeys_div_spec() ==> r == (Vector1 { x: self.x.div_spec(rhs) }),
    {
        Vector1 { x: self.x / rhs }
    }
}

impl<T: Div<Output = T> + Copy> Vector1<T> {
    /// Divides the component by the scalar `rhs`, in place.
    pub fn div_assign(&mut self, rhs: &T)
        requires
            old(self).div_req(*rhs),
        ensures
            old(self).div_returns(*rhs, *final(self)),
            T::obeys_div_spec() ==> *final(self) == old(self).div_spec(*rhs),
    {
        self.x = self.x / *rhs;
    }
}

impl<T: Mul<Output = T> + Copy> Vector1<T> {
    /// Whether the dot product of `self` and `rhs` can be computed.
    pub open spec fn dot_req(self, rhs: Vector1<T>) -> bool {
        self.x.mul_req(rhs.x)
    }

    /// The dot product: the product of the components.
    pub open spec fn dot_spec(self, rhs: Vector1<T>) -> T {
        self.x.mul_spec(rhs.x)
    }

    /// Whether `self.dot(rhs)` may return `r`: whether `r` is what `*` may
    /// return for the components.
    pub open spec fn dot_returns(self, rhs: Vector1<T>, r: T) -> bool {
        scalar::mul_returns(self.x, rhs.x, r)
    }

    /// Whether the squared magnitude of `self` can be computed.
    pub open spec fn mag_sq_req(self) -> bool {
        self.dot_req(self)
    }

    /// The squared magnitude: the dot product of `self` with itself.
    pub open spec fn mag_sq_spec(self) -> T {
        self.dot_spec(self)
    }

    /// Whether `self.mag_sq()` may return `r`.
    pub open spec fn mag_sq_returns(self, r: T) -> bool {
        self.dot_returns(self, r)
    }

    /// Returns the squared magnitude: the dot product of `self` with itself.
    pub fn mag_sq(&self) -> (r: T)
        requires
            self.mag_sq_req(),
        ensures
            self.mag_sq_returns(r),
            T::obeys_mul_spec() ==> r == self.mag_sq_spec(),
    {
        self.x * self.x
    }

    /// Returns the dot product of `self` and `rhs`.
    pub fn dot(&self, rhs: &Vector1<T>) -> (r: T)
        requires
            self.dot_req(*rhs),
        ensures
            self.dot_returns(*rhs, r),
            T::obeys_mul_spec() ==> r == self.dot_spec(*rhs),
    {
        self.x * rhs.x
    }
}

impl<T: Signed> Vector1<T> {
    /// Whether the magnitude of `self` can be computed.
    pub open spec fn mag_req(self) -> bool {
        self.x.abs_req()
    }

    /// The magnitude: the absolute value of the component.
    pub open spec fn mag_spec(self) -> T {
        self.x.abs_spec()
    }

    /// Returns the magnitude: the absolute value of the component.
    pub fn mag(&self) -> (r: T)
        requires
            self.mag_req(),
        ensures
            r == self.mag_spec(),
    {
        self.x.abs()
    }
}

impl<T: One> Vector1<T> {
    /// The unit vector.
    pub fn unit() -> (r: Vector1<T>)
        ensures
            r == (Vector1 { x: T::one_spec() }),
    {
        Vector1 { x: One::one() }
    }
}

impl<T: Integral> Vector1<T> {
    /// The dot product of the integers that `self` and `rhs` stand for.
    pub open spec fn dot_value(self, rhs: Vector1<T>) -> int {
        self.x.value() * rhs.x.value()
    }

    /// The dot product of integral vectors stands for the dot product of
    /// their integers, wherever it can be computed.
    pub proof fn lemma_dot_value(a: Vector1<T>, b: Vector1<T>)
        requires
            a.dot_req(b),
        ensures
            a.dot_spec(b).value() == a.dot_value(b),
    {
        T::lemma_mul(a.x, b.x);
    }

    /// Adding the zero vector changes nothing: `v + 0 == v`.
    pub proof fn lemma_add_zero(v: Vector1<T>)
        ensures
            v.add_req(Vector1::zero_spec()),
            v.add_spec(Vector1::zero_spec()) == v,
    {
        scalar::lemma_add_zero(v.x);
    }

    /// Addition is commutative: `v + w == w + v`, wherever the sum can be
    /// computed.
    pub proof fn lemma_add_commutative(v: Vector1<T>, w: Vector1<T>)
        requires
            v.add_req(w),
        ensures
            w.add_req(v),
            v.add_spec(w) == w.add_spec(v),
    {
        scalar::lemma_add_commutative(v.x, w.x);
    }

    /// Addition is associative: `(u + v) + w == u + (v + w)`, wherever both
    /// sides can be computed.
    pub proof fn lemma_add_associative(u: Vector1<T>, v: Vector1<T>, w: Vector1<T>)
        requires
            u.add_req(v),
            u.add_spec(v).add_req(w),
            v.add_req(w),
            u.add_req(v.add_spec(w)),
        ensures
            u.add_spec(v).add_spec(w) == u.add_spec(v.add_spec(w)),
    {
        scalar::lemma_add_associative(u.x, v.x, w.x);
    }

    /// Scaling distributes over addition: `(v + w) * s == v * s + w * s`,
    /// wherever the sum and the three products can be computed.
    pub proof fn lemma_scale_distributive(v: Vector1<T>, w: Vector1<T>, s: T)
        requires
            v.add_req(w),
            v.add_spec(w).mul_req(s),
            v.mul_req(s),
            w.mul_req(s),
        ensures
            v.mul_spec(s).add_req(w.mul_spec(s)),
            v.add_spec(w).mul_spec(s) == v.mul_spec(s).add_spec(w.mul_spec(s)),
    {
        scalar::lemma_mul_distributive(v.x, w.x, s);
    }

    /// The dot product is additive in its first argument:
    /// `(a + b) . c == a . c + b . c`, wherever the sum of the vectors and
    /// the three dot products can be computed.
    pub proof fn lemma_dot_additive(a: Vector1<T>, b: Vector1<T>, c: Vector1<T>)
        requires
            a.add_req(b),
            a.add_spec(b).dot_req(c),
            a.dot_req(c),
            b.dot_req(c),
        ensures
            a.dot_spec(c).add_req(b.dot_spec(c)),
            a.add_spec(b).dot_spec(c) == a.dot_spec(c).add_spec(b.dot_spec(c)),
    {
        scalar::lemma_mul_distributive(a.x, b.x, c.x);
    }

    /// The dot product is symmetric: `a . b == b . a`, wherever it can be
    /// computed.
    pub proof fn lemma_dot_symmetric(a: Vector1<T>, b: Vector1<T>)
        requires
            a.dot_req(b),
        ensures
            b.dot_req(a),
            a.dot_spec(b) == b.dot_spec(a),
    {
        scalar::lemma_mul_commutative(a.x, b.x);
    }
}

impl<T: SignedIntegral> Vector1<T> {
    /// A vector and its negation add up to the zero vector:
    /// `v + (-v) == 0`, wherever the negation can be computed.
    pub proof fn lemma_add_neg(v: Vector1<T>)
        requires
            v.neg_req(),
        ensures
            v.add_req(v.neg_spec()),
            v.add_spec(v.neg_spec()) == Vector1::<T>::zero_spec(),
    {
        scalar::lemma_add_neg(v.x);
    }

    /// Negation is subtraction from the zero vector: `-v == 0 - v`,
    /// wherever the negation can be computed.
    pub proof fn lemma_neg_is_zero_sub(v: Vector1<T>)
        requires
            v.neg_req(),
        ensures
            Vector1::<T>::zero_spec().sub_req(v),
            v.neg_spec() == Vector1::<T>::zero_spec().sub_spec(v),
    {
        scalar::lemma_neg_is_zero_sub(v.x);
    }

    /// The magnitude is the square root of the squared magnitude, wherever
    /// both can be computed.
    pub proof fn lemma_mag_is_sqrt_of_mag_sq(v: Vector1<T>)
        requires
            v.mag_req(),
            v.mag_sq_req(),
        ensures
            v.mag_sq_spec().sqrt_req(),
            v.mag_spec() == v.mag_sq_spec().sqrt_spec(),
    {
        scalar::lemma_abs_is_sqrt_of_square(v.x);
    }

    /// The magnitude of an integral vector is not negative.
    pub proof fn lemma_mag_nonnegative(v: Vector1<T>)
        requires
            v.mag_req(),
        ensures
            v.mag_spec().value() >= 0,
    {
        T::lemma_abs(v.x);
    }
}

} // verus!
