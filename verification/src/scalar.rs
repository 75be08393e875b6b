//! The number type that the motion groups compute with.
//!
//! Every matrix and vector of this crate holds values of one type `T: Scalar`.
//! The trait names the result of each arithmetic operation by a spec function,
//! so that contracts can say which operations produced a value and in which
//! order. It claims no algebraic law: rounding arithmetic fits it as well as
//! exact arithmetic does. The laws of a commutative ring are the subject of
//! [`ExactScalar`], and only the proofs of the group laws ask for them.

use vstd::prelude::*;

verus! {

/// Arithmetic on the entries of vectors and matrices.
///
/// Each operation is a function of its operands; the spec function beside it
/// is that function.
pub trait Scalar: Copy + Sized {
    /// The additive identity.
    spec fn zero_spec() -> Self;

    /// The multiplicative identity.
    spec fn one_spec() -> Self;

    /// The scalar one half.
    spec fn half_spec() -> Self;

    /// The scalar that stands for the count `n`.
    spec fn from_count_spec(n: usize) -> Self;

    spec fn add_spec(self, rhs: Self) -> Self;

    spec fn sub_spec(self, rhs: Self) -> Self;

    spec fn mul_spec(self, rhs: Self) -> Self;

    spec fn div_spec(self, rhs: Self) -> Self;

    spec fn neg_spec(self) -> Self;

    fn zero() -> (r: Self)
        ensures
            r == Self::zero_spec(),
    ;

    fn one() -> (r: Self)
        ensures
            r == Self::one_spec(),
    ;

    fn half() -> (r: Self)
        ensures
            r == Self::half_spec(),
    ;

    fn from_count(n: usize) -> (r: Self)
        ensures
            r == Self::from_count_spec(n),
    ;

    fn add(self, rhs: Self) -> (r: Self)
        ensures
            r == self.add_spec(rhs),
    ;

    fn sub(self, rhs: Self) -> (r: Self)
        ensures
            r == self.sub_spec(rhs),
    ;

    fn mul(self, rhs: Self) -> (r: Self)
        ensures
            r == self.mul_spec(rhs),
    ;

    fn div(self, rhs: Self) -> (r: Self)
        ensures
            r == self.div_spec(rhs),
    ;

    fn neg(self) -> (r: Self)
        ensures
            r == self.neg_spec(),
    ;
}

/// A scalar whose arithmetic is exact: a commutative ring in which the
/// scalar one half doubles to one and division by one changes nothing.
///
/// A type may hold values that are not the canonical form of any number;
/// `is_exact` tells the canonical ones apart. Every operation yields a
/// canonical value, and the identity laws are stated of canonical values.
pub trait ExactScalar: Scalar {
    /// Whether `self` is the canonical form of a number.
    spec fn is_exact(self) -> bool;

    proof fn constants_exact()
        ensures
            Self::zero_spec().is_exact(),
            Self::one_spec().is_exact(),
            Self::half_spec().is_exact(),
    ;

    proof fn results_exact(a: Self, b: Self)
        ensures
            a.add_spec(b).is_exact(),
            a.sub_spec(b).is_exact(),
            a.mul_spec(b).is_exact(),
            a.div_spec(b).is_exact(),
            a.neg_spec().is_exact(),
    ;

    proof fn add_commutes(a: Self, b: Self)
        ensures
            a.add_spec(b) == b.add_spec(a),
    ;

    proof fn add_associates(a: Self, b: Self, c: Self)
        ensures
            a.add_spec(b).add_spec(c) == a.add_spec(b.add_spec(c)),
    ;

    proof fn add_zero(a: Self)
        requires
            a.is_exact(),
        ensures
            a.add_spec(Self::zero_spec()) == a,
    ;

    proof fn add_negation(a: Self)
        ensures
            a.add_spec(a.neg_spec()) == Self::zero_spec(),
    ;

    proof fn sub_is_add_negation(a: Self, b: Self)
        ensures
            a.sub_spec(b) == a.add_spec(b.neg_spec()),
    ;

    proof fn mul_commutes(a: Self, b: Self)
        ensures
            a.mul_spec(b) == b.mul_spec(a),
    ;

    proof fn mul_associates(a: Self, b: Self, c: Self)
        ensures
            a.mul_spec(b).mul_spec(c) == a.mul_spec(b.mul_spec(c)),
    ;

    proof fn mul_one(a: Self)
        requires
            a.is_exact(),
        ensures
            a.mul_spec(Self::one_spec()) == a,
    ;

    proof fn mul_distributes(a: Self, b: Self, c: Self)
        ensures
            a.mul_spec(b.add_spec(c)) == a.mul_spec(b).add_spec(a.mul_spec(c)),
    ;

    proof fn half_doubles()
        ensures
            Self::half_spec().add_spec(Self::half_spec()) == Self::one_spec(),
    ;

    proof fn div_one(a: Self)
        requires
            a.is_exact(),
        ensures
            a.div_spec(Self::one_spec()) == a,
    ;

    proof fn count_one()
        ensures
            Self::from_count_spec(1) == Self::one_spec(),
    ;
}

} // verus!
