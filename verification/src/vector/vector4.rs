//! Vectors of four components.

use crate::scalar;
use crate::scalar::Algebraic;
use crate::scalar::Integral;
use crate::scalar::One;
use crate::scalar::SignedIntegral;
use crate::scalar::Zero;
use core::ops::Add;
use core::ops::Div;
use core::ops::Mul;
use core::ops::Neg;
use core::ops::Sub;
use vstd::arithmetic::mul::lemma_mul_is_distributive_add_other_way;
use vstd::prelude::*;
use vstd::std_specs::cmp::PartialEqSpec;
use vstd::std_specs::ops::AddSpec;
use vstd::std_specs::ops::DivSpec;
use vstd::std_specs::ops::MulSpec;
use vstd::std_specs::ops::NegSpec;
use vstd::std_specs::ops::SubSpec;

verus! {

/// A vector of four components, `x`, `y`, `z` and `w`.
#[derive(Debug)]
pub struct Vector4<T> {
    pub x: T,
    pub y: T,
    pub z: T,
    pub w: T,
}

impl<T: Copy> Copy for Vector4<T> {

}

impl<T: Copy> Clone for Vector4<T> {
    /// Returns a copy of `self`.
    fn clone(&self) -> (r: Vector4<T>)
        ensures
            r == *self,
    {
        *self
    }
}

impl<T: PartialEq> Vector4<T> {
    /// Whether `self == other` may return `r`.
    pub open spec fn eq_returns(self, other: Vector4<T>, r: bool) -> bool {
        exists|x: bool, y: bool, z: bool, w: bool|
            {
                &&& #[trigger] scalar::eq_returns(self.x, other.x, x)
                &&& #[trigger] scalar::eq_returns(self.y, other.y, y)
                &&& #[trigger] scalar::eq_returns(self.z, other.z, z)
                &&& #[trigger] scalar::eq_returns(self.w, other.w, w)
                &&& r == (x && y && z && w)
            }
    }
}

impl<T: PartialEq> vstd::std_specs::cmp::PartialEqSpecImpl for Vector4<T> {
    /// `==` on vectors returns what `eq_spec` says whenever `==` on `T` does.
    open spec fn obeys_eq_spec() -> bool {
        T::obeys_eq_spec()
    }

    /// Two vectors are equal when their components are.
    open spec fn eq_spec(&self, other: &Vector4<T>) -> bool {
        self.x.eq_spec(&other.x)
            && self.y.eq_spec(&other.y)
            && self.z.eq_spec(&other.z)
            && self.w.eq_spec(&other.w)
    }
}

impl<T: PartialEq> PartialEq for Vector4<T> {
    /// Tells whether the components of `self` and `other` are equal.
    fn eq(&self, other: &Vector4<T>) -> (r: bool)
        ensures
            self.eq_returns(*other, r),
            T::obeys_eq_spec() ==> r == (self.x.eq_spec(&other.x)
                && self.y.eq_spec(&other.y)
                && self.z.eq_spec(&other.z)
                && self.w.eq_spec(&other.w)),
    {
        let x = self.x == other.x;
        let y = self.y == other.y;
        let z = self.z == other.z;
        let w = self.w == other.w;
        assert(scalar::eq_returns(self.x, other.x, x));
        assert(scalar::eq_returns(self.y, other.y, y));
        assert(scalar::eq_returns(self.z, other.z, z));
        assert(scalar::eq_returns(self.w, other.w, w));
        x && y && z && w
    }
}

impl<T> Vector4<T> {
    /// The vector with the given components.
    pub fn new(x: T, y: T, z: T, w: T) -> (r: Vector4<T>)
        ensures
            r == (Vector4 { x, y, z, w }),
    {
        Vector4 { x, y, z, w }
    }
}

impl<T: Zero> Zero for Vector4<T> {
    /// The vector whose components are all zero.
    open spec fn zero_spec() -> Vector4<T> {
        Vector4 { x: T::zero_spec(), y: T::zero_spec(), z: T::zero_spec(), w: T::zero_spec() }
    }

    /// Returns the zero vector.
    fn zero() -> (r: Vector4<T>)
        ensures
            r == (Vector4 {
                x: T::zero_spec(),
                y: T::zero_spec(),
                z: T::zero_spec(),
                w: T::zero_spec(),
            }),
    {
        Vector4 { x: Zero::zero(), y: Zero::zero(), z: Zero::zero(), w: Zero::zero() }
    }

    /// Tells whether every component is zero.
    fn is_zero(&self) -> (b: bool)
        ensures
            b == (self.x == T::zero_spec()
                && self.y == T::zero_spec()
                && self.z == T::zero_spec()
                && self.w == T::zero_spec()),
    {
        self.x.is_zero() && self.y.is_zero() && self.z.is_zero() && self.w.is_zero()
    }
}

impl<T: Add<Output = T>> Vector4<T> {
    /// Whether `self + rhs` may return `r`: whether every component of `r` is
    /// what `+` on `T` may return for the components of `self` and `rhs`.
    pub open spec fn add_returns(self, rhs: Vector4<T>, r: Vector4<T>) -> bool {
        &&& scalar::add_returns(self.x, rhs.x, r.x)
        &&& scalar::add_returns(self.y, rhs.y, r.y)
        &&& scalar::add_returns(self.z, rhs.z, r.z)
        &&& scalar::add_returns(self.w, rhs.w, r.w)
    }
}

impl<T: Add<Output = T>> vstd::std_specs::ops::AddSpecImpl for Vector4<T> {
    /// `+` on vectors returns what `add_spec` says whenever `+` on `T` does.
    open spec fn obeys_add_spec() -> bool {
        T::obeys_add_spec()
    }

    /// Whether the sum of each pair of components can be computed.
    open spec fn add_req(self, rhs: Vector4<T>) -> bool {
        self.x.add_req(rhs.x)
            && self.y.add_req(rhs.y)
            && self.z.add_req(rhs.z)
            && self.w.add_req(rhs.w)
    }

    /// The componentwise sum.
    open spec fn add_spec(self, rhs: Vector4<T>) -> Vector4<T> {
        Vector4 {
            x: self.x.add_spec(rhs.x),
            y: self.y.add_spec(rhs.y),
            z: self.z.add_spec(rhs.z),
            w: self.w.add_spec(rhs.w),
        }
    }
}

impl<T: Add<Output = T>> Add for Vector4<T> {
    type Output = Vector4<T>;

    /// Returns the sum. Requires `self.add_req(rhs)`.
    fn add(self, rhs: Vector4<T>) -> (r: Vector4<T>)
        ensures
            self.add_returns(rhs, r),
            T::obeys_add_spec() ==> r == (Vector4 {
                x: self.x.add_spec(rhs.x),
                y: self.y.add_spec(rhs.y),
                z: self.z.add_spec(rhs.z),
                w: self.w.add_spec(rhs.w),
            }),
    {
        Vector4 { x: self.x + rhs.x, y: self.y + rhs.y, z: self.z + rhs.z, w: self.w + rhs.w }
    }
}

impl<T: Sub<Output = T>> Vector4<T> {
    /// Whether `self - rhs` may return `r`: whether every component of `r` is
    /// what `-` on `T` may return for the components of `self` and `rhs`.
    pub open spec fn sub_returns(self, rhs: Vector4<T>, r: Vector4<T>) -> bool {
        &&& scalar::sub_returns(self.x, rhs.x, r.x)
        &&& scalar::sub_returns(self.y, rhs.y, r.y)
        &&& scalar::sub_returns(self.z, rhs.z, r.z)
        &&& scalar::sub_returns(self.w, rhs.w, r.w)
    }
}

impl<T: Sub<Output = T>> vstd::std_specs::ops::SubSpecImpl for Vector4<T> {
    /// `-` on vectors returns what `sub_spec` says whenever `-` on `T` does.
    open spec fn obeys_sub_spec() -> bool {
        T::obeys_sub_spec()
    }

    /// Whether the difference of each pair of components can be computed.
    open spec fn sub_req(self, rhs: Vector4<T>) -> bool {
        self.x.sub_req(rhs.x)
            && self.y.sub_req(rhs.y)
            && self.z.sub_req(rhs.z)
            && self.w.sub_req(rhs.w)
    }

    /// The componentwise difference.
    open spec fn sub_spec(self, rhs: Vector4<T>) -> Vector4<T> {
        Vector4 {
            x: self.x.sub_spec(rhs.x),
            y: self.y.sub_spec(rhs.y),
            z: self.z.sub_spec(rhs.z),
            w: self.w.sub_spec(rhs.w),
        }
    }
}

impl<T: Sub<Output = T>> Sub for Vector4<T> {
    type Output = Vector4<T>;

    /// Returns the difference. Requires `self.sub_req(rhs)`.
    fn sub(self, rhs: Vector4<T>) -> (r: Vector4<T>)
        ensures
            self.sub_returns(rhs, r),
            T::obeys_sub_spec() ==> r == (Vector4 {
                x: self.x.sub_spec(rhs.x),
                y: self.y.sub_spec(rhs.y),
                z: self.z.sub_spec(rhs.z),
                w: self.w.sub_spec(rhs.w),
            }),
    {
        Vector4 { x: self.x - rhs.x, y: self.y - rhs.y, z: self.z - rhs.z, w: self.w - rhs.w }
    }
}

impl<T: Neg<Output = T>> Vector4<T> {
    /// Whether `-self` may return `r`: whether every component of `r` is what `-`
    /// on `T` may return for the component of `self`.
    pub open spec fn neg_returns(self, r: Vector4<T>) -> bool {
        &&& scalar::neg_returns(self.x, r.x)
        &&& scalar::neg_returns(self.y, r.y)
        &&& scalar::neg_returns(self.z, r.z)
        &&& scalar::neg_returns(self.w, r.w)
    }
}

impl<T: Neg<Output = T>> vstd::std_specs::ops::NegSpecImpl for Vector4<T> {
    /// `-` on vectors returns what `neg_spec` says whenever `-` on `T` does.
    open spec fn obeys_neg_spec() -> bool {
        T::obeys_neg_spec()
    }

    /// Whether the negation of every component can be computed.
    open spec fn neg_req(self) -> bool {
        self.x.neg_req() && self.y.neg_req() && self.z.neg_req() && self.w.neg_req()
    }

    /// The componentwise negation.
    open spec fn neg_spec(self) -> Vector4<T> {
        Vector4 {
            x: self.x.neg_spec(),
            y: self.y.neg_spec(),
            z: self.z.neg_spec(),
            w: self.w.neg_spec(),
        }
    }
}

impl<T: Neg<Output = T>> Neg for Vector4<T> {
    type Output = Vector4<T>;

    /// Returns the negation. Requires `self.neg_req()`.
    fn neg(self) -> (r: Vector4<T>)
        ensures
            self.neg_returns(r),
            T::obeys_neg_spec() ==> r == (Vector4 {
                x: self.x.neg_spec(),
                y: self.y.neg_spec(),
                z: self.z.neg_spec(),
                w: self.w.neg_spec(),
            }),
    {
        Vector4 { x: self.x.neg(), y: self.y.neg(), z: self.z.neg(), w: self.w.neg() }
    }
}

impl<T: Mul<Output = T> + Copy> Vector4<T> {
    /// Whether `self * rhs` may return `r`: whether every component of `r` is
    /// what `*` on `T` may return for the component of `self` and `rhs`.
    pub open spec fn mul_returns(self, rhs: T, r: Vector4<T>) -> bool {
        &&& scalar::mul_returns(self.x, rhs, r.x)
        &&& scalar::mul_returns(self.y, rhs, r.y)
        &&& scalar::mul_returns(self.z, rhs, r.z)
        &&& scalar::mul_returns(self.w, rhs, r.w)
    }
}

impl<T: Mul<Output = T> + Copy> vstd::std_specs::ops::MulSpecImpl<T> for Vector4<T> {
    /// `*` by a scalar returns what `mul_spec` says whenever `*` on `T` does.
    open spec fn obeys_mul_spec() -> bool {
        T::obeys_mul_spec()
    }

    /// Whether every component can be multiplied by `rhs`.
    open spec fn mul_req(self, rhs: T) -> bool {
        self.x.mul_req(rhs) && self.y.mul_req(rhs) && self.z.mul_req(rhs) && self.w.mul_req(rhs)
    }

    /// Every component multiplied by the scalar `rhs`.
    open spec fn mul_spec(self, rhs: T) -> Vector4<T> {
        Vector4 {
            x: self.x.mul_spec(rhs),
            y: self.y.mul_spec(rhs),
            z: self.z.mul_spec(rhs),
            w: self.w.mul_spec(rhs),
        }
    }
}

impl<T: Mul<Output = T> + Copy> Mul<T> for Vector4<T> {
    type Output = Vector4<T>;

    /// Returns the product. Requires `self.mul_req(rhs)`.
    fn mul(self, rhs: T) -> (r: Vector4<T>)
        ensures
            self.mul_returns(rhs, r),
            T::obeys_mul_spec() ==> r == (Vector4 {
                x: self.x.mul_spec(rhs),
                y: self.y.mul_spec(rhs),
                z: self.z.mul_spec(rhs),
                w: self.w.mul_spec(rhs),
            }),
    {
        Vector4 { x: self.x * rhs, y: self.y * rhs, z: self.z * rhs, w: self.w * rhs }
    }
}

impl<T: Mul<Output = T> + Copy> Vector4<T> {
    /// Multiplies every component by the scalar `rhs`, in place.
    pub fn mul_assign(&mut self, rhs: &T)
        requires
            old(self).mul_req(*rhs),
        ensures
            old(self).mul_returns(*rhs, *final(self)),
            T::obeys_mul_spec() ==> *final(self) == old(self).mul_spec(*rhs),
    {
        self.x = self.x * *rhs;
        self.y = self.y * *rhs;
        self.z = self.z * *rhs;
        self.w = self.w * *rhs;
    }
}

impl<T: Div<Output = T> + Copy> Vector4<T> {
    /// Whether `self / rhs` may return `r`: whether every component of `r` is
    /// what `/` on `T` may return for the component of `self` and `rhs`.
    pub open spec fn div_returns(self, rhs: T, r: Vector4<T>) -> bool {
        &&& scalar::div_returns(self.x, rhs, r.x)
        &&& scalar::div_returns(self.y, rhs, r.y)
        &&& scalar::div_returns(self.z, rhs, r.z)
        &&& scalar::div_returns(self.w, rhs, r.w)
    }
}

impl<T: Div<Output = T> + Copy> vstd::std_specs::ops::DivSpecImpl<T> for Vector4<T> {
    /// `/` by a scalar returns what `div_spec` says whenever `/` on `T` does.
    open spec fn obeys_div_spec() -> bool {
        T::obeys_div_spec()
    }

    /// Whether every component can be divided by `rhs`.
    open spec fn div_req(self, rhs: T) -> bool {
        self.x.div_req(rhs) && self.y.div_req(rhs) && self.z.div_req(rhs) && self.w.div_req(rhs)
    }

    /// Every component divided by the scalar `rhs`.
    open spec fn div_spec(self, rhs: T) -> Vector4<T> {
        Vector4 {
            x: self.x.div_spec(rhs),
            y: self.y.div_spec(rhs),
            z: self.z.div_spec(rhs),
            w: self.w.div_spec(rhs),
        }
    }
}

impl<T: Div<Output = T> + Copy> Div<T> for Vector4<T> {
    type Output = Vector4<T>;

    /// Returns the quotient. Requires `self.div_req(rhs)`.
    fn div(self, rhs: T) -> (r: Vector4<T>)
        ensures
            self.div_returns(rhs, r),
            T::obeys_div_spec() ==> r == (Vector4 {
                x: self.x.div_spec(rhs),
                y: self.y.div_spec(rhs),
                z: self.z.div_spec(rhs),
                w: self.w.div_spec(rhs),
            }),
    {
        Vector4 { x: self.x / rhs, y: self.y / rhs, z: self.z / rhs, w: self.w / rhs }
    }
}

impl<T: Div<Output = T> + Copy> Vector4<T> {
    /// Divides every component by the scalar `rhs`, in place.
    pub fn div_assign(&mut self, rhs: &T)
        requires
            old(self).div_req(*rhs),
        ensures
            old(self).div_returns(*rhs, *final(self)),
            T::obeys_div_spec() ==> *final(self) == old(self).div_spec(*rhs),
    {
        self.x = self.x / *rhs;
        self.y = self.y / *rhs;
        self.z = self.z / *rhs;
        self.w = self.w / *rhs;
    }
}

impl<T: Mul<Output = T> + Add<Output = T> + Copy> Vector4<T> {
    /// Whether the dot product of `self` and `rhs` can be computed, for a
    /// scalar type whose operators return what their specifications say.
    pub open spec fn dot_req(self, rhs: Vector4<T>) -> bool {
        let x = self.x.mul_spec(rhs.x);
        let y = self.y.mul_spec(rhs.y);
        let z = self.z.mul_spec(rhs.z);
        let w = self.w.mul_spec(rhs.w);
        &&& self.x.mul_req(rhs.x)
        &&& self.y.mul_req(rhs.y)
        &&& self.z.mul_req(rhs.z)
        &&& self.w.mul_req(rhs.w)
        &&& x.add_req(y)
        &&& x.add_spec(y).add_req(z)
        &&& x.add_spec(y).add_spec(z).add_req(w)
    }

    /// The dot product, for such a scalar type: the sum of the products of
    /// corresponding components.
    pub open spec fn dot_spec(self, rhs: Vector4<T>) -> T {
        self.x.mul_spec(rhs.x)
            .add_spec(self.y.mul_spec(rhs.y))
            .add_spec(self.z.mul_spec(rhs.z))
            .add_spec(self.w.mul_spec(rhs.w))
    }

    /// Whether `r` may be the sum of the products of the first two
    /// components of `self` and `rhs`: whether `r` is what `+` may return
    /// for what `*` may return for them.
    pub open spec fn dot_xy_returns(self, rhs: Vector4<T>, r: T) -> bool {
        exists|x: T, y: T|
            {
                &&& #[trigger] scalar::mul_returns(self.x, rhs.x, x)
                &&& #[trigger] scalar::mul_returns(self.y, rhs.y, y)
                &&& scalar::add_returns(x, y, r)
            }
    }

    /// Whether `r` may be the sum of the products of the first three
    /// components of `self` and `rhs`: whether `r` is what `+` may return
    /// for such a sum of the first two and what `*` may return for the
    /// third components.
    pub open spec fn dot_xyz_returns(self, rhs: Vector4<T>, r: T) -> bool {
        exists|s: T, z: T|
            {
                &&& #[trigger] self.dot_xy_returns(rhs, s)
                &&& #[trigger] scalar::mul_returns(self.z, rhs.z, z)
                &&& scalar::add_returns(s, z, r)
            }
    }

    /// Whether `self.dot(rhs)` may return `r`: whether `r` is what `+` may
    /// return for a sum of the products of the first three components and
    /// what `*` may return for the fourth components.
    pub open spec fn dot_returns(self, rhs: Vector4<T>, r: T) -> bool {
        exists|s: T, w: T|
            {
                &&& #[trigger] self.dot_xyz_returns(rhs, s)
                &&& #[trigger] scalar::mul_returns(self.w, rhs.w, w)
                &&& scalar::add_returns(s, w, r)
            }
    }

    /// Whether the dot product of `self` and `rhs` can be computed. For a
    /// scalar type whose operators return what their specifications say
    /// this is `dot_req`. For another it asks that the products can be
    /// computed, and each sum for whatever came before it.
    pub open spec fn dot_requires(self, rhs: Vector4<T>) -> bool {
        if T::obeys_mul_spec() && T::obeys_add_spec() {
            self.dot_req(rhs)
        } else {
            &&& self.x.mul_req(rhs.x)
            &&& self.y.mul_req(rhs.y)
            &&& self.z.mul_req(rhs.z)
            &&& self.w.mul_req(rhs.w)
            &&& forall|x: T, y: T|
                {
                    &&& #[trigger] scalar::mul_returns(self.x, rhs.x, x)
                    &&& #[trigger] scalar::mul_returns(self.y, rhs.y, y)
                } ==> x.add_req(y)
            &&& forall|s: T, z: T|
                {
                    &&& #[trigger] self.dot_xy_returns(rhs, s)
                    &&& #[trigger] scalar::mul_returns(self.z, rhs.z, z)
                } ==> s.add_req(z)
            &&& forall|s: T, w: T|
                {
                    &&& #[trigger] self.dot_xyz_returns(rhs, s)
                    &&& #[trigger] scalar::mul_returns(self.w, rhs.w, w)
                } ==> s.add_req(w)
        }
    }

    /// Whether the squared magnitude of `self` can be computed, for a scalar
    /// type whose operators return what their specifications say.
    pub open spec fn mag_sq_req(self) -> bool {
        self.dot_req(self)
    }

    /// The squared magnitude, for such a scalar type: the dot product of
    /// `self` with itself.
    pub open spec fn mag_sq_spec(self) -> T {
        self.dot_spec(self)
    }

    /// Whether the squared magnitude of `self` can be computed.
    pub open spec fn mag_sq_requires(self) -> bool {
        self.dot_requires(self)
    }

    /// Whether `self.mag_sq()` may return `r`.
    pub open spec fn mag_sq_returns(self, r: T) -> bool {
        self.dot_returns(self, r)
    }

    /// Returns the squared magnitude: the dot product of `self` with itself.
    pub fn mag_sq(&self) -> (r: T)
        requires
            self.mag_sq_requires(),
        ensures
            self.mag_sq_returns(r),
            T::obeys_mul_spec() && T::obeys_add_spec() ==> r == self.mag_sq_spec(),
    {
        self.dot(self)
    }

    /// Returns the dot product of `self` and `rhs`.
    pub fn dot(&self, rhs: &Vector4<T>) -> (r: T)
        requires
            self.dot_requires(*rhs),
        ensures
            self.dot_returns(*rhs, r),
            T::obeys_mul_spec() && T::obeys_add_spec() ==> r == self.dot_spec(*rhs),
    {
        let x = self.x * rhs.x;
        let y = self.y * rhs.y;
        let z = self.z * rhs.z;
        let w = self.w * rhs.w;
        assert(scalar::mul_returns(self.x, rhs.x, x) && scalar::mul_returns(self.y, rhs.y, y));
        let xy = x + y;
        assert(self.dot_xy_returns(*rhs, xy) && scalar::mul_returns(self.z, rhs.z, z));
        let xyz = xy + z;
        assert(self.dot_xyz_returns(*rhs, xyz) && scalar::mul_returns(self.w, rhs.w, w));
        xyz + w
    }
}

impl<T: Mul<Output = T> + Add<Output = T> + Algebraic + Copy> Vector4<T> {
    /// Whether the magnitude of `self` can be computed, for a scalar type
    /// whose operators return what their specifications say.
    pub open spec fn mag_req(self) -> bool {
        self.mag_sq_req() && self.mag_sq_spec().sqrt_req()
    }

    /// The magnitude, for such a scalar type: the square root of the squared
    /// magnitude.
    pub open spec fn mag_spec(self) -> T {
        self.mag_sq_spec().sqrt_spec()
    }

    /// Whether the magnitude of `self` can be computed. For a scalar type
    /// whose operators return what their specifications say this is
    /// `mag_req`. For another it asks that the squared magnitude can be
    /// computed, and the square root of whatever it returns.
    pub open spec fn mag_requires(self) -> bool {
        if T::obeys_mul_spec() && T::obeys_add_spec() {
            self.mag_req()
        } else {
            &&& self.mag_sq_requires()
            &&& forall|q: T| #[trigger] self.mag_sq_returns(q) ==> q.sqrt_req()
        }
    }

    /// Whether `self.mag()` may return `r`: whether `r` is the square root of
    /// a squared magnitude that `self.mag_sq()` may return.
    pub open spec fn mag_returns(self, r: T) -> bool {
        exists|q: T| #[trigger] self.mag_sq_returns(q) && r == q.sqrt_spec()
    }

    /// Returns the magnitude: the square root of the squared magnitude.
    pub fn mag(&self) -> (r: T)
        requires
            self.mag_requires(),
        ensures
            self.mag_returns(r),
            T::obeys_mul_spec() && T::obeys_add_spec() ==> r == self.mag_spec(),
    {
        self.mag_sq().sqrt()
    }
}

impl<T: Div<Output = T> + Mul<Output = T> + Add<Output = T> + Algebraic + Copy> Vector4<T> {
    /// Whether `self` can be divided by its magnitude, for a scalar type
    /// whose operators return what their specifications say.
    pub open spec fn normal_req(self) -> bool {
        self.mag_req() && self.div_req(self.mag_spec())
    }

    /// The normal, for such a scalar type: `self` divided by its magnitude.
    pub open spec fn normal_spec(self) -> Vector4<T> {
        self.div_spec(self.mag_spec())
    }

    /// Whether the normal of `self` can be computed. For a scalar type whose
    /// operators return what their specifications say this is
    /// `normal_req`. For another it asks that the magnitude can be
    /// computed, and that `self` can be divided by whatever it returns.
    pub open spec fn normal_requires(self) -> bool {
        if T::obeys_mul_spec() && T::obeys_add_spec() && T::obeys_div_spec() {
            self.normal_req()
        } else {
            &&& self.mag_requires()
            &&& forall|m: T| #[trigger] self.mag_returns(m) ==> self.div_req(m)
        }
    }

    /// Whether `self.normal()` may return `r`: whether `r` is what `/` may
    /// return for `self` and a magnitude that `self.mag()` may return.
    pub open spec fn normal_returns(self, r: Vector4<T>) -> bool {
        exists|m: T| #[trigger] self.mag_returns(m) && self.div_returns(m, r)
    }

    /// Whether `self` can be scaled to the magnitude `m`, for a scalar type
    /// whose operators return what their specifications say.
    pub open spec fn with_magnitude_req(self, m: T) -> bool {
        &&& self.mag_req()
        &&& m.div_req(self.mag_spec())
        &&& self.mul_req(m.div_spec(self.mag_spec()))
    }

    /// `self` scaled to the magnitude `m`, for such a scalar type: `self`
    /// multiplied by the quotient of `m` and the magnitude of `self`.
    pub open spec fn with_magnitude_spec(self, m: T) -> Vector4<T> {
        self.mul_spec(m.div_spec(self.mag_spec()))
    }

    /// Whether `self` can be scaled to the magnitude `m`. For a scalar type
    /// whose operators return what their specifications say this is
    /// `with_magnitude_req`. For another it asks that the magnitude can be
    /// computed, that `m` can be divided by whatever it returns, and that
    /// `self` can be multiplied by whatever that returns.
    pub open spec fn with_magnitude_requires(self, m: T) -> bool {
        if T::obeys_mul_spec() && T::obeys_add_spec() && T::obeys_div_spec() {
            self.with_magnitude_req(m)
        } else {
            &&& self.mag_requires()
            &&& forall|g: T| #[trigger] self.mag_returns(g) ==> m.div_req(g)
            &&& forall|g: T, f: T|
                {
                    &&& #[trigger] self.mag_returns(g)
                    &&& #[trigger] scalar::div_returns(m, g, f)
                } ==> self.mul_req(f)
        }
    }

    /// Whether `self.with_magnitude(m)` may return `r`: whether `r` is what
    /// `*` may return for `self` and a factor, the factor being what `/` may
    /// return for `m` and a magnitude that `self.mag()` may return.
    pub open spec fn with_magnitude_returns(self, m: T, r: Vector4<T>) -> bool {
        exists|g: T, f: T|
            {
                &&& #[trigger] self.mag_returns(g)
                &&& #[trigger] scalar::div_returns(m, g, f)
                &&& self.mul_returns(f, r)
            }
    }

    /// Returns the normal: `self` divided by its magnitude.
    pub fn normal(&self) -> (r: Vector4<T>)
        requires
            self.normal_requires(),
        ensures
            self.normal_returns(r),
            T::obeys_mul_spec() && T::obeys_add_spec() && T::obeys_div_spec()
                ==> r == self.normal_spec(),
    {
        *self / self.mag()
    }

    /// Replaces `self` by its normal.
    pub fn normalize(&mut self)
        requires
            old(self).normal_requires(),
        ensures
            old(self).normal_returns(*final(self)),
            T::obeys_mul_spec() && T::obeys_add_spec() && T::obeys_div_spec()
                ==> *final(self) == old(self).normal_spec(),
    {
        let m = self.mag();
        self.div_assign(&m);
    }

    /// Returns `self` scaled to the magnitude `m`: `self` multiplied by the
    /// quotient of `m` and the magnitude of `self`.
    pub fn with_magnitude(&self, m: &T) -> (r: Vector4<T>)
        requires
            self.with_magnitude_requires(*m),
        ensures
            self.with_magnitude_returns(*m, r),
            T::obeys_mul_spec() && T::obeys_add_spec() && T::obeys_div_spec()
                ==> r == self.with_magnitude_spec(*m),
    {
        let g = self.mag();
        let f = *m / g;
        assert(self.mag_returns(g) && scalar::div_returns(*m, g, f));
        *self * f
    }

    /// Scales `self` to the magnitude `m`, in place.
    pub fn set_magnitude(&mut self, m: &T)
        requires
            old(self).with_magnitude_requires(*m),
        ensures
            old(self).with_magnitude_returns(*m, *final(self)),
            T::obeys_mul_spec() && T::obeys_add_spec() && T::obeys_div_spec()
                ==> *final(self) == old(self).with_magnitude_spec(*m),
    {
        let g = self.mag();
        let f = *m / g;
        assert(self.mag_returns(g) && scalar::div_returns(*m, g, f));
        self.mul_assign(&f);
    }
}

impl<T: Zero + One> Vector4<T> {
    /// The unit vector along the first axis.
    pub fn x_unit() -> (r: Vector4<T>)
        ensures
            r == (Vector4 {
                x: T::one_spec(),
                y: T::zero_spec(),
                z: T::zero_spec(),
                w: T::zero_spec(),
            }),
    {
        Vector4 { x: One::one(), y: Zero::zero(), z: Zero::zero(), w: Zero::zero() }
    }

    /// The unit vector along the second axis.
    pub fn y_unit() -> (r: Vector4<T>)
        ensures
            r == (Vector4 {
                x: T::zero_spec(),
                y: T::one_spec(),
                z: T::zero_spec(),
                w: T::zero_spec(),
            }),
    {
        Vector4 { x: Zero::zero(), y: One::one(), z: Zero::zero(), w: Zero::zero() }
    }

    /// The unit vector along the third axis.
    pub fn z_unit() -> (r: Vector4<T>)
        ensures
            r == (Vector4 {
                x: T::zero_spec(),
                y: T::zero_spec(),
                z: T::one_spec(),
                w: T::zero_spec(),
            }),
    {
        Vector4 { x: Zero::zero(), y: Zero::zero(), z: One::one(), w: Zero::zero() }
    }

    /// The unit vector along the fourth axis.
    pub fn w_unit() -> (r: Vector4<T>)
        ensures
            r == (Vector4 {
                x: T::zero_spec(),
                y: T::zero_spec(),
                z: T::zero_spec(),
                w: T::one_spec(),
            }),
    {
        Vector4 { x: Zero::zero(), y: Zero::zero(), z: Zero::zero(), w: One::one() }
    }
}

impl<T: Integral> Vector4<T> {
    /// The dot product of the integers that `self` and `rhs` stand for.
    pub open spec fn dot_value(self, rhs: Vector4<T>) -> int {
        self.x.value() * rhs.x.value() + self.y.value() * rhs.y.value()
            + self.z.value() * rhs.z.value() + self.w.value() * rhs.w.value()
    }

    /// The dot product of integral vectors stands for the dot product of
    /// their integers, wherever it can be computed.
    pub proof fn lemma_dot_value(a: Vector4<T>, b: Vector4<T>)
        requires
            a.dot_req(b),
        ensures
            a.dot_spec(b).value() == a.dot_value(b),
    {
        T::lemma_mul(a.x, b.x);
        T::lemma_mul(a.y, b.y);
        T::lemma_mul(a.z, b.z);
        T::lemma_mul(a.w, b.w);
        T::lemma_add(a.x.mul_spec(b.x), a.y.mul_spec(b.y));
        T::lemma_add(a.x.mul_spec(b.x).add_spec(a.y.mul_spec(b.y)), a.z.mul_spec(b.z));
        T::lemma_add(
            a.x.mul_spec(b.x).add_spec(a.y.mul_spec(b.y)).add_spec(a.z.mul_spec(b.z)),
            a.w.mul_spec(b.w),
        );
    }

    /// Adding the zero vector changes nothing: `v + 0 == v`.
    pub proof fn lemma_add_zero(v: Vector4<T>)
        ensures
            v.add_req(Vector4::zero_spec()),
            v.add_spec(Vector4::zero_spec()) == v,
    {
        scalar::lemma_add_zero(v.x);
        scalar::lemma_add_zero(v.y);
        scalar::lemma_add_zero(v.z);
        scalar::lemma_add_zero(v.w);
    }

    /// Addition is commutative: `v + w == w + v`, wherever the sum can be
    /// computed.
    pub proof fn lemma_add_commutative(v: Vector4<T>, w: Vector4<T>)
        requires
            v.add_req(w),
        ensures
            w.add_req(v),
            v.add_spec(w) == w.add_spec(v),
    {
        scalar::lemma_add_commutative(v.x, w.x);
        scalar::lemma_add_commutative(v.y, w.y);
        scalar::lemma_add_commutative(v.z, w.z);
        scalar::lemma_add_commutative(v.w, w.w);
    }

    /// Addition is associative: `(u + v) + w == u + (v + w)`, wherever both
    /// sides can be computed.
    pub proof fn lemma_add_associative(u: Vector4<T>, v: Vector4<T>, w: Vector4<T>)
        requires
            u.add_req(v),
            u.add_spec(v).add_req(w),
            v.add_req(w),
            u.add_req(v.add_spec(w)),
        ensures
            u.add_spec(v).add_spec(w) == u.add_spec(v.add_spec(w)),
    {
        scalar::lemma_add_associative(u.x, v.x, w.x);
        scalar::lemma_add_associative(u.y, v.y, w.y);
        scalar::lemma_add_associative(u.z, v.z, w.z);
        scalar::lemma_add_associative(u.w, v.w, w.w);
    }

    /// Scaling distributes over addition: `(v + w) * s == v * s + w * s`,
    /// wherever the sum and the three products can be computed.
    pub proof fn lemma_scale_distributive(v: Vector4<T>, w: Vector4<T>, s: T)
        requires
            v.add_req(w),
            v.add_spec(w).mul_req(s),
            v.mul_req(s),
            w.mul_req(s),
        ensures
            v.mul_spec(s).add_req(w.mul_spec(s)),
            v.add_spec(w).mul_spec(s) == v.mul_spec(s).add_spec(w.mul_spec(s)),
    {
        scalar::lemma_mul_distributive(v.x, w.x, s);
        scalar::lemma_mul_distributive(v.y, w.y, s);
        scalar::lemma_mul_distributive(v.z, w.z, s);
        scalar::lemma_mul_distributive(v.w, w.w, s);
    }

    /// The dot product is additive in its first argument:
    /// `(a + b) . c == a . c + b . c`, wherever the sum of the vectors and
    /// the three dot products can be computed.
    pub proof fn lemma_dot_additive(a: Vector4<T>, b: Vector4<T>, c: Vector4<T>)
        requires
            a.add_req(b),
            a.add_spec(b).dot_req(c),
            a.dot_req(c),
            b.dot_req(c),
        ensures
            a.dot_spec(c).add_req(b.dot_spec(c)),
            a.add_spec(b).dot_spec(c) == a.dot_spec(c).add_spec(b.dot_spec(c)),
    {
        let s = a.add_spec(b);
        Self::lemma_dot_value(a, c);
        Self::lemma_dot_value(b, c);
        Self::lemma_dot_value(s, c);
        T::lemma_add(a.x, b.x);
        lemma_mul_is_distributive_add_other_way(c.x.value(), a.x.value(), b.x.value());
        T::lemma_add(a.y, b.y);
        lemma_mul_is_distributive_add_other_way(c.y.value(), a.y.value(), b.y.value());
        T::lemma_add(a.z, b.z);
        lemma_mul_is_distributive_add_other_way(c.z.value(), a.z.value(), b.z.value());
        T::lemma_add(a.w, b.w);
        lemma_mul_is_distributive_add_other_way(c.w.value(), a.w.value(), b.w.value());
        T::lemma_value(s.dot_spec(c), s.dot_spec(c));
        T::lemma_add(a.dot_spec(c), b.dot_spec(c));
        T::lemma_value(s.dot_spec(c), a.dot_spec(c).add_spec(b.dot_spec(c)));
    }

    /// The dot product is symmetric: `a . b == b . a`, wherever it can be
    /// computed.
    pub proof fn lemma_dot_symmetric(a: Vector4<T>, b: Vector4<T>)
        requires
            a.dot_req(b),
        ensures
            b.dot_req(a),
            a.dot_spec(b) == b.dot_spec(a),
    {
        scalar::lemma_mul_commutative(a.x, b.x);
        scalar::lemma_mul_commutative(a.y, b.y);
        scalar::lemma_mul_commutative(a.z, b.z);
        scalar::lemma_mul_commutative(a.w, b.w);
    }

    /// The magnitude of an integral vector is not negative.
    pub proof fn lemma_mag_nonnegative(v: Vector4<T>)
        requires
            v.mag_req(),
        ensures
            v.mag_spec().value() >= 0,
    {
        T::lemma_sqrt(v.mag_sq_spec());
    }
}

impl<T: SignedIntegral> Vector4<T> {
    /// A vector and its negation add up to the zero vector:
    /// `v + (-v) == 0`, wherever the negation can be computed.
    pub proof fn lemma_add_neg(v: Vector4<T>)
        requires
            v.neg_req(),
        ensures
            v.add_req(v.neg_spec()),
            v.add_spec(v.neg_spec()) == Vector4::<T>::zero_spec(),
    {
        scalar::lemma_add_neg(v.x);
        scalar::lemma_add_neg(v.y);
        scalar::lemma_add_neg(v.z);
        scalar::lemma_add_neg(v.w);
    }

    /// Negation is subtraction from the zero vector: `-v == 0 - v`,
    /// wherever the negation can be computed.
    pub proof fn lemma_neg_is_zero_sub(v: Vector4<T>)
        requires
            v.neg_req(),
        ensures
            Vector4::<T>::zero_spec().sub_req(v),
            v.neg_spec() == Vector4::<T>::zero_spec().sub_spec(v),
    {
        scalar::lemma_neg_is_zero_sub(v.x);
        scalar::lemma_neg_is_zero_sub(v.y);
        scalar::lemma_neg_is_zero_sub(v.z);
        scalar::lemma_neg_is_zero_sub(v.w);
    }
}

} // verus!
