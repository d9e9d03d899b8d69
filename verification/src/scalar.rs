//! The arithmetic a matrix element has to offer.

use vstd::prelude::*;

verus! {

/// An element type with a zero, a sum and a product.
///
/// Each operation is a function of its operands: the executable method
/// returns what the specification function of the same operation denotes.
/// No algebraic law is asked for, so that rounding arithmetic qualifies as
/// well as exact arithmetic; where a law is needed it is stated as a
/// hypothesis (see [`crate::laws::unital`]).
pub trait Scalar: Copy {
    /// The value an accumulation starts from.
    spec fn zero_spec() -> Self;

    /// The sum of `self` and `rhs`.
    spec fn plus_spec(self, rhs: Self) -> Self;

    /// The product of `self` and `rhs`.
    spec fn times_spec(self, rhs: Self) -> Self;

    fn zero() -> (r: Self)
        ensures
            r == Self::zero_spec(),
    ;

    fn plus(self, rhs: Self) -> (r: Self)
        ensures
            r == self.plus_spec(rhs),
    ;

    fn times(self, rhs: Self) -> (r: Self)
        ensures
            r == self.times_spec(rhs),
    ;
}

/// Unsigned 64-bit integers with arithmetic modulo 2^64.
impl Scalar for u64 {
    open spec fn zero_spec() -> u64 {
        0
    }

    open spec fn plus_spec(self, rhs: u64) -> u64 {
        vstd::wrapping::u64_specs::wrapping_add(self, rhs)
    }

    open spec fn times_spec(self, rhs: u64) -> u64 {
        vstd::wrapping::u64_specs::wrapping_mul(self, rhs)
    }

    fn zero() -> (r: u64) {
        0
    }

    fn plus(self, rhs: u64) -> (r: u64) {
        self.wrapping_add(rhs)
    }

    fn times(self, rhs: u64) -> (r: u64) {
        self.wrapping_mul(rhs)
    }
}

/// Signed 64-bit integers with two's-complement wrapping arithmetic.
impl Scalar for i64 {
    open spec fn zero_spec() -> i64 {
        0
    }

    open spec fn plus_spec(self, rhs: i64) -> i64 {
        vstd::wrapping::i64_specs::wrapping_add(self, rhs)
    }

    open spec fn times_spec(self, rhs: i64) -> i64 {
        vstd::wrapping::i64_specs::wrapping_mul(self, rhs)
    }

    fn zero() -> (r: i64) {
        0
    }

    fn plus(self, rhs: i64) -> (r: i64) {
        self.wrapping_add(rhs)
    }

    fn times(self, rhs: i64) -> (r: i64) {
        self.wrapping_mul(rhs)
    }
}

} // verus!
