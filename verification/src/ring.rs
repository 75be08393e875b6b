//! Consequences of the ring laws of an exact scalar.

use crate::scalar::ExactScalar;
use vstd::prelude::*;

verus! {

/// `0 + a = a`.
pub proof fn lemma_zero_add<T: ExactScalar>(a: T)
    requires
        a.is_exact(),
    ensures
        T::zero_spec().add_spec(a) == a,
{
    T::add_commutes(T::zero_spec(), a);
    T::add_zero(a);
}

/// `1 * a = a`.
pub proof fn lemma_one_mul<T: ExactScalar>(a: T)
    requires
        a.is_exact(),
    ensures
        T::one_spec().mul_spec(a) == a,
{
    T::mul_commutes(T::one_spec(), a);
    T::mul_one(a);
}

/// `(-a) + a = 0`.
pub proof fn lemma_negation_add<T: ExactScalar>(a: T)
    ensures
        a.neg_spec().add_spec(a) == T::zero_spec(),
{
    T::add_commutes(a.neg_spec(), a);
    T::add_negation(a);
}

/// The additive inverse is unique: if `x + y = 0` then `y = -x`.
pub proof fn lemma_negation_unique<T: ExactScalar>(x: T, y: T)
    requires
        y.is_exact(),
        x.add_spec(y) == T::zero_spec(),
    ensures
        y == x.neg_spec(),
{
    let nx = x.neg_spec();
    T::results_exact(x, x);
    lemma_zero_add(y);
    lemma_negation_add(x);
    T::add_associates(nx, x, y);
    T::add_zero(nx);
}

/// `-(-a) = a`.
pub proof fn lemma_neg_neg<T: ExactScalar>(a: T)
    requires
        a.is_exact(),
    ensures
        a.neg_spec().neg_spec() == a,
{
    lemma_negation_add(a);
    lemma_negation_unique(a.neg_spec(), a);
}

/// `-0 = 0`.
pub proof fn lemma_neg_zero<T: ExactScalar>()
    ensures
        T::zero_spec().neg_spec() == T::zero_spec(),
{
    T::constants_exact();
    T::add_zero(T::zero_spec());
    lemma_negation_unique(T::zero_spec(), T::zero_spec());
}

/// `a * 0 = 0`.
pub proof fn lemma_mul_zero<T: ExactScalar>(a: T)
    ensures
        a.mul_spec(T::zero_spec()) == T::zero_spec(),
{
    let z = T::zero_spec();
    let x = a.mul_spec(z);
    T::constants_exact();
    T::results_exact(a, z);
    T::add_zero(z);
    T::mul_distributes(a, z, z);
    // x = x + x, hence x + (-x) = x + (x + (-x))
    T::add_associates(x, x, x.neg_spec());
    T::add_negation(x);
    T::add_zero(x);
}

/// `0 * a = 0`.
pub proof fn lemma_zero_mul<T: ExactScalar>(a: T)
    ensures
        T::zero_spec().mul_spec(a) == T::zero_spec(),
{
    T::mul_commutes(T::zero_spec(), a);
    lemma_mul_zero(a);
}

/// `(a + b) * c = a * c + b * c`.
pub proof fn lemma_mul_distributes_right<T: ExactScalar>(a: T, b: T, c: T)
    ensures
        a.add_spec(b).mul_spec(c) == a.mul_spec(c).add_spec(b.mul_spec(c)),
{
    T::mul_commutes(a.add_spec(b), c);
    T::mul_distributes(c, a, b);
    T::mul_commutes(c, a);
    T::mul_commutes(c, b);
}

/// `a * (-b) = -(a * b)`.
pub proof fn lemma_mul_neg<T: ExactScalar>(a: T, b: T)
    ensures
        a.mul_spec(b.neg_spec()) == a.mul_spec(b).neg_spec(),
{
    T::mul_distributes(a, b, b.neg_spec());
    T::add_negation(b);
    lemma_mul_zero(a);
    T::results_exact(a, b.neg_spec());
    lemma_negation_unique(a.mul_spec(b), a.mul_spec(b.neg_spec()));
}

/// `-(a + b) = (-a) + (-b)`.
pub proof fn lemma_neg_add<T: ExactScalar>(a: T, b: T)
    ensures
        a.add_spec(b).neg_spec() == a.neg_spec().add_spec(b.neg_spec()),
{
    let na = a.neg_spec();
    let nb = b.neg_spec();
    // (a + b) + (-a + -b) = (b + a) + (-a + -b) = b + (a + (-a + -b))
    //   = b + ((a + -a) + -b) = b + (0 + -b) = b + -b = 0
    T::add_commutes(a, b);
    T::add_associates(b, a, na.add_spec(nb));
    T::add_associates(a, na, nb);
    T::add_negation(a);
    T::results_exact(b, b);
    lemma_zero_add(nb);
    T::add_negation(b);
    T::results_exact(na, nb);
    lemma_negation_unique(a.add_spec(b), na.add_spec(nb));
}

/// Half of `a + a` is `a`.
pub proof fn lemma_half_of_double<T: ExactScalar>(a: T)
    requires
        a.is_exact(),
    ensures
        T::half_spec().mul_spec(a.add_spec(a)) == a,
{
    let h = T::half_spec();
    T::mul_distributes(h, a, a);
    lemma_mul_distributes_right(h, h, a);
    T::half_doubles();
    lemma_one_mul(a);
}

/// Half of `a - (-a)` is `a`.
pub proof fn lemma_half_of_difference<T: ExactScalar>(a: T)
    requires
        a.is_exact(),
    ensures
        T::half_spec().mul_spec(a.sub_spec(a.neg_spec())) == a,
{
    T::sub_is_add_negation(a, a.neg_spec());
    lemma_neg_neg(a);
    lemma_half_of_double(a);
}

/// `(a + b) + (c + d) = (a + c) + (b + d)`.
pub proof fn lemma_add_interchange<T: ExactScalar>(a: T, b: T, c: T, d: T)
    ensures
        a.add_spec(b).add_spec(c.add_spec(d)) == a.add_spec(c).add_spec(b.add_spec(d)),
{
    T::add_associates(a, b, c.add_spec(d));
    T::add_associates(b, c, d);
    T::add_commutes(b, c);
    T::add_associates(c, b, d);
    T::add_associates(a, c, b.add_spec(d));
}

/// `(-a) * b = -(a * b)`.
pub proof fn lemma_neg_mul<T: ExactScalar>(a: T, b: T)
    ensures
        a.neg_spec().mul_spec(b) == a.mul_spec(b).neg_spec(),
{
    T::mul_commutes(a.neg_spec(), b);
    lemma_mul_neg(b, a);
    T::mul_commutes(b, a);
}

/// `(-a) * b + c * d = c * d - a * b`.
pub proof fn lemma_difference_of_products<T: ExactScalar>(a: T, b: T, c: T, d: T)
    ensures
        a.neg_spec().mul_spec(b).add_spec(c.mul_spec(d)) == c.mul_spec(d).sub_spec(a.mul_spec(b)),
{
    lemma_neg_mul(a, b);
    T::add_commutes(a.neg_spec().mul_spec(b), c.mul_spec(d));
    T::sub_is_add_negation(c.mul_spec(d), a.mul_spec(b));
}

} // verus!
