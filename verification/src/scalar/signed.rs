//! The scalar traits for the signed primitive integer types.

use crate::scalar::isqrt::isqrt;
use crate::scalar::isqrt::isqrt_spec;
use crate::scalar::isqrt::lemma_isqrt_bound;
use crate::scalar::isqrt::lemma_isqrt_exists;
use crate::scalar::Algebraic;
use crate::scalar::Integral;
use crate::scalar::One;
use crate::scalar::Signed;
use crate::scalar::SignedIntegral;
use crate::scalar::Zero;
use vstd::prelude::*;

verus! {

/// The additive identity of `i8` is `0`.
impl Zero for i8 {
    open spec fn zero_spec() -> i8 {
        0
    }

    fn zero() -> (r: i8) {
        0
    }

    fn is_zero(&self) -> (b: bool) {
        *self == 0
    }
}

/// The multiplicative identity of `i8` is `1`.
impl One for i8 {
    open spec fn one_spec() -> i8 {
        1
    }

    fn one() -> (r: i8) {
        1
    }
}

/// Every `i8` but the least has an absolute value in `i8`.
impl Signed for i8 {
    open spec fn abs_req(self) -> bool {
        self != i8::MIN
    }

    open spec fn abs_spec(self) -> i8 {
        if self < 0 {
            (-self) as i8
        } else {
            self
        }
    }

    fn abs(&self) -> (r: i8) {
        if *self < 0 {
            -*self
        } else {
            *self
        }
    }
}

/// The square root of a `i8` that is not negative is its integer square
/// root, rounded down.
impl Algebraic for i8 {
    open spec fn sqrt_req(self) -> bool {
        self >= 0
    }

    open spec fn sqrt_spec(self) -> i8 {
        isqrt_spec(self as int) as i8
    }

    fn sqrt(&self) -> (r: i8) {
        isqrt(*self as u128) as i8
    }
}

/// A `i8` stands for the integer it holds.
impl Integral for i8 {
    open spec fn value(self) -> int {
        self as int
    }

    open spec fn representable(v: int) -> bool {
        i8::MIN <= v <= i8::MAX
    }

    proof fn lemma_value(a: i8, b: i8) {
    }

    proof fn lemma_obeys() {
    }

    proof fn lemma_identities() {
    }

    proof fn lemma_add(a: i8, b: i8) {
    }

    proof fn lemma_sub(a: i8, b: i8) {
    }

    proof fn lemma_mul(a: i8, b: i8) {
    }

    proof fn lemma_sqrt(a: i8) {
        if a >= 0 {
            lemma_isqrt_exists(a as int);
            lemma_isqrt_bound(a as int);
        }
    }
}

/// Negation and the absolute value of a `i8` are those of its integer.
impl SignedIntegral for i8 {
    proof fn lemma_obeys_neg() {
    }

    proof fn lemma_neg(a: i8) {
    }

    proof fn lemma_abs(a: i8) {
    }
}

/// The additive identity of `i16` is `0`.
impl Zero for i16 {
    open spec fn zero_spec() -> i16 {
        0
    }

    fn zero() -> (r: i16) {
        0
    }

    fn is_zero(&self) -> (b: bool) {
        *self == 0
    }
}

/// The multiplicative identity of `i16` is `1`.
impl One for i16 {
    open spec fn one_spec() -> i16 {
        1
    }

    fn one() -> (r: i16) {
        1
    }
}

/// Every `i16` but the least has an absolute value in `i16`.
impl Signed for i16 {
    open spec fn abs_req(self) -> bool {
        self != i16::MIN
    }

    open spec fn abs_spec(self) -> i16 {
        if self < 0 {
            (-self) as i16
        } else {
            self
        }
    }

    fn abs(&self) -> (r: i16) {
        if *self < 0 {
            -*self
        } else {
            *self
        }
    }
}

/// The square root of a `i16` that is not negative is its integer square
/// root, rounded down.
impl Algebraic for i16 {
    open spec fn sqrt_req(self) -> bool {
        self >= 0
    }

    open spec fn sqrt_spec(self) -> i16 {
        isqrt_spec(self as int) as i16
    }

    fn sqrt(&self) -> (r: i16) {
        isqrt(*self as u128) as i16
    }
}

/// A `i16` stands for the integer it holds.
impl Integral for i16 {
    open spec fn value(self) -> int {
        self as int
    }

    open spec fn representable(v: int) -> bool {
        i16::MIN <= v <= i16::MAX
    }

    proof fn lemma_value(a: i16, b: i16) {
    }

    proof fn lemma_obeys() {
    }

    proof fn lemma_identities() {
    }

    proof fn lemma_add(a: i16, b: i16) {
    }

    proof fn lemma_sub(a: i16, b: i16) {
    }

    proof fn lemma_mul(a: i16, b: i16) {
    }

    proof fn lemma_sqrt(a: i16) {
        if a >= 0 {
            lemma_isqrt_exists(a as int);
            lemma_isqrt_bound(a as int);
        }
    }
}

/// Negation and the absolute value of a `i16` are those of its integer.
impl SignedIntegral for i16 {
    proof fn lemma_obeys_neg() {
    }

    proof fn lemma_neg(a: i16) {
    }

    proof fn lemma_abs(a: i16) {
    }
}

/// The additive identity of `i32` is `0`.
impl Zero for i32 {
    open spec fn zero_spec() -> i32 {
        0
    }

    fn zero() -> (r: i32) {
        0
    }

    fn is_zero(&self) -> (b: bool) {
        *self == 0
    }
}

/// The multiplicative identity of `i32` is `1`.
impl One for i32 {
    open spec fn one_spec() -> i32 {
        1
    }

    fn one() -> (r: i32) {
        1
    }
}

/// Every `i32` but the least has an absolute value in `i32`.
impl Signed for i32 {
    open spec fn abs_req(self) -> bool {
        self != i32::MIN
    }

    open spec fn abs_spec(self) -> i32 {
        if self < 0 {
            (-self) as i32
        } else {
            self
        }
    }

    fn abs(&self) -> (r: i32) {
        if *self < 0 {
            -*self
        } else {
            *self
        }
    }
}

/// The square root of a `i32` that is not negative is its integer square
/// root, rounded down.
impl Algebraic for i32 {
    open spec fn sqrt_req(self) -> bool {
        self >= 0
    }

    open spec fn sqrt_spec(self) -> i32 {
        isqrt_spec(self as int) as i32
    }

    fn sqrt(&self) -> (r: i32) {
        isqrt(*self as u128) as i32
    }
}

/// A `i32` stands for the integer it holds.
impl Integral for i32 {
    open spec fn value(self) -> int {
        self as int
    }

    open spec fn representable(v: int) -> bool {
        i32::MIN <= v <= i32::MAX
    }

    proof fn lemma_value(a: i32, b: i32) {
    }

    proof fn lemma_obeys() {
    }

    proof fn lemma_identities() {
    }

    proof fn lemma_add(a: i32, b: i32) {
    }

    proof fn lemma_sub(a: i32, b: i32) {
    }

    proof fn lemma_mul(a: i32, b: i32) {
    }

    proof fn lemma_sqrt(a: i32) {
        if a >= 0 {
            lemma_isqrt_exists(a as int);
            lemma_isqrt_bound(a as int);
        }
    }
}

/// Negation and the absolute value of a `i32` are those of its integer.
impl SignedIntegral for i32 {
    proof fn lemma_obeys_neg() {
    }

    proof fn lemma_neg(a: i32) {
    }

    proof fn lemma_abs(a: i32) {
    }
}

/// The additive identity of `i64` is `0`.
impl Zero for i64 {
    open spec fn zero_spec() -> i64 {
        0
    }

    fn zero() -> (r: i64) {
        0
    }

    fn is_zero(&self) -> (b: bool) {
        *self == 0
    }
}

/// The multiplicative identity of `i64` is `1`.
impl One for i64 {
    open spec fn one_spec() -> i64 {
        1
    }

    fn one() -> (r: i64) {
        1
    }
}

/// Every `i64` but the least has an absolute value in `i64`.
impl Signed for i64 {
    open spec fn abs_req(self) -> bool {
        self != i64::MIN
    }

    open spec fn abs_spec(self) -> i64 {
        if self < 0 {
            (-self) as i64
        } else {
            self
        }
    }

    fn abs(&self) -> (r: i64) {
        if *self < 0 {
            -*self
        } else {
            *self
        }
    }
}

/// The square root of a `i64` that is not negative is its integer square
/// root, rounded down.
impl Algebraic for i64 {
    open spec fn sqrt_req(self) -> bool {
        self >= 0
    }

    open spec fn sqrt_spec(self) -> i64 {
        isqrt_spec(self as int) as i64
    }

    fn sqrt(&self) -> (r: i64) {
        isqrt(*self as u128) as i64
    }
}

/// A `i64` stands for the integer it holds.
impl Integral for i64 {
    open spec fn value(self) -> int {
        self as int
    }

    open spec fn representable(v: int) -> bool {
        i64::MIN <= v <= i64::MAX
    }

    proof fn lemma_value(a: i64, b: i64) {
    }

    proof fn lemma_obeys() {
    }

    proof fn lemma_identities() {
    }

    proof fn lemma_add(a: i64, b: i64) {
    }

    proof fn lemma_sub(a: i64, b: i64) {
    }

    proof fn lemma_mul(a: i64, b: i64) {
    }

    proof fn lemma_sqrt(a: i64) {
        if a >= 0 {
            lemma_isqrt_exists(a as int);
            lemma_isqrt_bound(a as int);
        }
    }
}

/// Negation and the absolute value of a `i64` are those of its integer.
impl SignedIntegral for i64 {
    proof fn lemma_obeys_neg() {
    }

    proof fn lemma_neg(a: i64) {
    }

    proof fn lemma_abs(a: i64) {
    }
}

/// The additive identity of `i128` is `0`.
impl Zero for i128 {
    open spec fn zero_spec() -> i128 {
        0
    }

    fn zero() -> (r: i128) {
        0
    }

    fn is_zero(&self) -> (b: bool) {
        *self == 0
    }
}

/// The multiplicative identity of `i128` is `1`.
impl One for i128 {
    open spec fn one_spec() -> i128 {
        1
    }

    fn one() -> (r: i128) {
        1
    }
}

/// Every `i128` but the least has an absolute value in `i128`.
impl Signed for i128 {
    open spec fn abs_req(self) -> bool {
        self != i128::MIN
    }

    open spec fn abs_spec(self) -> i128 {
        if self < 0 {
            (-self) as i128
        } else {
            self
        }
    }

    fn abs(&self) -> (r: i128) {
        if *self < 0 {
            -*self
        } else {
            *self
        }
    }
}

/// The square root of a `i128` that is not negative is its integer square
/// root, rounded down.
impl Algebraic for i128 {
    open spec fn sqrt_req(self) -> bool {
        self >= 0
    }

    open spec fn sqrt_spec(self) -> i128 {
        isqrt_spec(self as int) as i128
    }

    fn sqrt(&self) -> (r: i128) {
        isqrt(*self as u128) as i128
    }
}

/// A `i128` stands for the integer it holds.
impl Integral for i128 {
    open spec fn value(self) -> int {
        self as int
    }

    open spec fn representable(v: int) -> bool {
        i128::MIN <= v <= i128::MAX
    }

    proof fn lemma_value(a: i128, b: i128) {
    }

    proof fn lemma_obeys() {
    }

    proof fn lemma_identities() {
    }

    proof fn lemma_add(a: i128, b: i128) {
    }

    proof fn lemma_sub(a: i128, b: i128) {
    }

    proof fn lemma_mul(a: i128, b: i128) {
    }

    proof fn lemma_sqrt(a: i128) {
        if a >= 0 {
            lemma_isqrt_exists(a as int);
            lemma_isqrt_bound(a as int);
        }
    }
}

/// Negation and the absolute value of a `i128` are those of its integer.
impl SignedIntegral for i128 {
    proof fn lemma_obeys_neg() {
    }

    proof fn lemma_neg(a: i128) {
    }

    proof fn lemma_abs(a: i128) {
    }
}

/// The additive identity of `isize` is `0`.
impl Zero for isize {
    open spec fn zero_spec() -> isize {
        0
    }

    fn zero() -> (r: isize) {
        0
    }

    fn is_zero(&self) -> (b: bool) {
        *self == 0
    }
}

/// The multiplicative identity of `isize` is `1`.
impl One for isize {
    open spec fn one_spec() -> isize {
        1
    }

    fn one() -> (r: isize) {
        1
    }
}

/// Every `isize` but the least has an absolute value in `isize`.
impl Signed for isize {
    open spec fn abs_req(self) -> bool {
        self != isize::MIN
    }

    open spec fn abs_spec(self) -> isize {
        if self < 0 {
            (-self) as isize
        } else {
            self
        }
    }

    fn abs(&self) -> (r: isize) {
        if *self < 0 {
            -*self
        } else {
            *self
        }
    }
}

/// The square root of a `isize` that is not negative is its integer square
/// root, rounded down.
impl Algebraic for isize {
    open spec fn sqrt_req(self) -> bool {
        self >= 0
    }

    open spec fn sqrt_spec(self) -> isize {
        isqrt_spec(self as int) as isize
    }

    fn sqrt(&self) -> (r: isize) {
        isqrt(*self as u128) as isize
    }
}

/// A `isize` stands for the integer it holds.
impl Integral for isize {
    open spec fn value(self) -> int {
        self as int
    }

    open spec fn representable(v: int) -> bool {
        isize::MIN <= v <= isize::MAX
    }

    proof fn lemma_value(a: isize, b: isize) {
    }

    proof fn lemma_obeys() {
    }

    proof fn lemma_identities() {
    }

    proof fn lemma_add(a: isize, b: isize) {
    }

    proof fn lemma_sub(a: isize, b: isize) {
    }

    proof fn lemma_mul(a: isize, b: isize) {
    }

    proof fn lemma_sqrt(a: isize) {
        if a >= 0 {
            lemma_isqrt_exists(a as int);
            lemma_isqrt_bound(a as int);
        }
    }
}

/// Negation and the absolute value of a `isize` are those of its integer.
impl SignedIntegral for isize {
    proof fn lemma_obeys_neg() {
    }

    proof fn lemma_neg(a: isize) {
    }

    proof fn lemma_abs(a: isize) {
    }
}

} // verus!
