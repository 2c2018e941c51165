//! The scalar traits for the unsigned primitive integer types.

use crate::scalar::isqrt::isqrt;
use crate::scalar::isqrt::isqrt_spec;
use crate::scalar::isqrt::lemma_isqrt_bound;
use crate::scalar::isqrt::lemma_isqrt_exists;
use crate::scalar::Algebraic;
use crate::scalar::Integral;
use crate::scalar::One;
use crate::scalar::Zero;
use vstd::prelude::*;

verus! {

/// The additive identity of `u8` is `0`.
impl Zero for u8 {
    open spec fn zero_spec() -> u8 {
        0
    }

    fn zero() -> (r: u8) {
        0
    }

    fn is_zero(&self) -> (b: bool) {
        *self == 0
    }
}

/// The multiplicative identity of `u8` is `1`.
impl One for u8 {
    open spec fn one_spec() -> u8 {
        1
    }

    fn one() -> (r: u8) {
        1
    }
}

/// The square root of a `u8` is its integer square root, rounded down.
impl Algebraic for u8 {
    open spec fn sqrt_req(self) -> bool {
        true
    }

    open spec fn sqrt_spec(self) -> u8 {
        isqrt_spec(self as int) as u8
    }

    fn sqrt(&self) -> (r: u8) {
        isqrt(*self as u128) as u8
    }
}

/// A `u8` stands for the integer it holds.
impl Integral for u8 {
    open spec fn value(self) -> int {
        self as int
    }

    open spec fn representable(v: int) -> bool {
        0 <= v <= u8::MAX
    }

    proof fn lemma_value(a: u8, b: u8) {
    }

    proof fn lemma_obeys() {
    }

    proof fn lemma_identities() {
    }

    proof fn lemma_add(a: u8, b: u8) {
    }

    proof fn lemma_sub(a: u8, b: u8) {
    }

    proof fn lemma_mul(a: u8, b: u8) {
    }

    proof fn lemma_sqrt(a: u8) {
        lemma_isqrt_exists(a as int);
        lemma_isqrt_bound(a as int);
    }
}

/// The additive identity of `u16` is `0`.
impl Zero for u16 {
    open spec fn zero_spec() -> u16 {
        0
    }

    fn zero() -> (r: u16) {
        0
    }

    fn is_zero(&self) -> (b: bool) {
        *self == 0
    }
}

/// The multiplicative identity of `u16` is `1`.
impl One for u16 {
    open spec fn one_spec() -> u16 {
        1
    }

    fn one() -> (r: u16) {
        1
    }
}

/// The square root of a `u16` is its integer square root, rounded down.
impl Algebraic for u16 {
    open spec fn sqrt_req(self) -> bool {
        true
    }

    open spec fn sqrt_spec(self) -> u16 {
        isqrt_spec(self as int) as u16
    }

    fn sqrt(&self) -> (r: u16) {
        isqrt(*self as u128) as u16
    }
}

/// A `u16` stands for the integer it holds.
impl Integral for u16 {
    open spec fn value(self) -> int {
        self as int
    }

    open spec fn representable(v: int) -> bool {
        0 <= v <= u16::MAX
    }

    proof fn lemma_value(a: u16, b: u16) {
    }

    proof fn lemma_obeys() {
    }

    proof fn lemma_identities() {
    }

    proof fn lemma_add(a: u16, b: u16) {
    }

    proof fn lemma_sub(a: u16, b: u16) {
    }

    proof fn lemma_mul(a: u16, b: u16) {
    }

    proof fn lemma_sqrt(a: u16) {
        lemma_isqrt_exists(a as int);
        lemma_isqrt_bound(a as int);
    }
}

/// The additive identity of `u32` is `0`.
impl Zero for u32 {
    open spec fn zero_spec() -> u32 {
        0
    }

    fn zero() -> (r: u32) {
        0
    }

    fn is_zero(&self) -> (b: bool) {
        *self == 0
    }
}

/// The multiplicative identity of `u32` is `1`.
impl One for u32 {
    open spec fn one_spec() -> u32 {
        1
    }

    fn one() -> (r: u32) {
        1
    }
}

/// The square root of a `u32` is its integer square root, rounded down.
impl Algebraic for u32 {
    open spec fn sqrt_req(self) -> bool {
        true
    }

    open spec fn sqrt_spec(self) -> u32 {
        isqrt_spec(self as int) as u32
    }

    fn sqrt(&self) -> (r: u32) {
        isqrt(*self as u128) as u32
    }
}

/// A `u32` stands for the integer it holds.
impl Integral for u32 {
    open spec fn value(self) -> int {
        self as int
    }

    open spec fn representable(v: int) -> bool {
        0 <= v <= u32::MAX
    }

    proof fn lemma_value(a: u32, b: u32) {
    }

    proof fn lemma_obeys() {
    }

    proof fn lemma_identities() {
    }

    proof fn lemma_add(a: u32, b: u32) {
    }

    proof fn lemma_sub(a: u32, b: u32) {
    }

    proof fn lemma_mul(a: u32, b: u32) {
    }

    proof fn lemma_sqrt(a: u32) {
        lemma_isqrt_exists(a as int);
        lemma_isqrt_bound(a as int);
    }
}

/// The additive identity of `u64` is `0`.
impl Zero for u64 {
    open spec fn zero_spec() -> u64 {
        0
    }

    fn zero() -> (r: u64) {
        0
    }

    fn is_zero(&self) -> (b: bool) {
        *self == 0
    }
}

/// The multiplicative identity of `u64` is `1`.
impl One for u64 {
    open spec fn one_spec() -> u64 {
        1
    }

    fn one() -> (r: u64) {
        1
    }
}

/// The square root of a `u64` is its integer square root, rounded down.
impl Algebraic for u64 {
    open spec fn sqrt_req(self) -> bool {
        true
    }

    open spec fn sqrt_spec(self) -> u64 {
        isqrt_spec(self as int) as u64
    }

    fn sqrt(&self) -> (r: u64) {
        isqrt(*self as u128) as u64
    }
}

/// A `u64` stands for the integer it holds.
impl Integral for u64 {
    open spec fn value(self) -> int {
        self as int
    }

    open spec fn representable(v: int) -> bool {
        0 <= v <= u64::MAX
    }

    proof fn lemma_value(a: u64, b: u64) {
    }

    proof fn lemma_obeys() {
    }

    proof fn lemma_identities() {
    }

    proof fn lemma_add(a: u64, b: u64) {
    }

    proof fn lemma_sub(a: u64, b: u64) {
    }

    proof fn lemma_mul(a: u64, b: u64) {
    }

    proof fn lemma_sqrt(a: u64) {
        lemma_isqrt_exists(a as int);
        lemma_isqrt_bound(a as int);
    }
}

/// The additive identity of `u128` is `0`.
impl Zero for u128 {
    open spec fn zero_spec() -> u128 {
        0
    }

    fn zero() -> (r: u128) {
        0
    }

    fn is_zero(&self) -> (b: bool) {
        *self == 0
    }
}

/// The multiplicative identity of `u128` is `1`.
impl One for u128 {
    open spec fn one_spec() -> u128 {
        1
    }

    fn one() -> (r: u128) {
        1
    }
}

/// The square root of a `u128` is its integer square root, rounded down.
impl Algebraic for u128 {
    open spec fn sqrt_req(self) -> bool {
        true
    }

    open spec fn sqrt_spec(self) -> u128 {
        isqrt_spec(self as int) as u128
    }

    fn sqrt(&self) -> (r: u128) {
        isqrt(*self)
    }
}

/// A `u128` stands for the integer it holds.
impl Integral for u128 {
    open spec fn value(self) -> int {
        self as int
    }

    open spec fn representable(v: int) -> bool {
        0 <= v <= u128::MAX
    }

    proof fn lemma_value(a: u128, b: u128) {
    }

    proof fn lemma_obeys() {
    }

    proof fn lemma_identities() {
    }

    proof fn lemma_add(a: u128, b: u128) {
    }

    proof fn lemma_sub(a: u128, b: u128) {
    }

    proof fn lemma_mul(a: u128, b: u128) {
    }

    proof fn lemma_sqrt(a: u128) {
        lemma_isqrt_exists(a as int);
        lemma_isqrt_bound(a as int);
    }
}

/// The additive identity of `usize` is `0`.
impl Zero for usize {
    open spec fn zero_spec() -> usize {
        0
    }

    fn zero() -> (r: usize) {
        0
    }

    fn is_zero(&self) -> (b: bool) {
        *self == 0
    }
}

/// The multiplicative identity of `usize` is `1`.
impl One for usize {
    open spec fn one_spec() -> usize {
        1
    }

    fn one() -> (r: usize) {
        1
    }
}

/// The square root of a `usize` is its integer square root, rounded down.
impl Algebraic for usize {
    open spec fn sqrt_req(self) -> bool {
        true
    }

    open spec fn sqrt_spec(self) -> usize {
        isqrt_spec(self as int) as usize
    }

    fn sqrt(&self) -> (r: usize) {
        isqrt(*self as u128) as usize
    }
}

/// A `usize` stands for the integer it holds.
impl Integral for usize {
    open spec fn value(self) -> int {
        self as int
    }

    open spec fn representable(v: int) -> bool {
        0 <= v <= usize::MAX
    }

    proof fn lemma_value(a: usize, b: usize) {
    }

    proof fn lemma_obeys() {
    }

    proof fn lemma_identities() {
    }

    proof fn lemma_add(a: usize, b: usize) {
    }

    proof fn lemma_sub(a: usize, b: usize) {
    }

    proof fn lemma_mul(a: usize, b: usize) {
    }

    proof fn lemma_sqrt(a: usize) {
        lemma_isqrt_exists(a as int);
        lemma_isqrt_bound(a as int);
    }
}

} // verus!
