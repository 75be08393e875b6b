//! Finite sums of scalars, added up from the first term to the last.

use crate::ring::{
    lemma_add_interchange, lemma_mul_distributes_right, lemma_mul_zero, lemma_zero_add,
    lemma_zero_mul,
};
use crate::scalar::{ExactScalar, Scalar};
use vstd::prelude::*;

verus! {

/// `((0 + f(0)) + f(1)) + ... + f(n - 1)`.
pub open spec fn sum<T: Scalar>(f: spec_fn(int) -> T, n: int) -> T
    decreases n,
{
    if n <= 0 {
        T::zero_spec()
    } else {
        sum(f, n - 1).add_spec(f(n - 1))
    }
}

/// A sum is a canonical value.
pub proof fn lemma_sum_exact<T: ExactScalar>(f: spec_fn(int) -> T, n: int)
    ensures
        sum(f, n).is_exact(),
{
    if n <= 0 {
        T::constants_exact();
    } else {
        T::results_exact(sum(f, n - 1), f(n - 1));
    }
}

/// Sums of equal terms are equal.
pub proof fn lemma_sum_congruence<T: Scalar>(f: spec_fn(int) -> T, g: spec_fn(int) -> T, n: int)
    requires
        forall|k: int| 0 <= k < n ==> #[trigger] f(k) == g(k),
    ensures
        sum(f, n) == sum(g, n),
    decreases n,
{
    if n > 0 {
        lemma_sum_congruence(f, g, n - 1);
    }
}

/// A sum of zeros is zero.
pub proof fn lemma_sum_of_zeros<T: ExactScalar>(f: spec_fn(int) -> T, n: int)
    requires
        forall|k: int| 0 <= k < n ==> #[trigger] f(k) == T::zero_spec(),
    ensures
        sum(f, n) == T::zero_spec(),
    decreases n,
{
    if n > 0 {
        lemma_sum_of_zeros(f, n - 1);
        T::constants_exact();
        T::add_zero(T::zero_spec());
    }
}

/// A sum whose terms are zero but for the term at `j` is that term.
pub proof fn lemma_sum_single_term<T: ExactScalar>(f: spec_fn(int) -> T, n: int, j: int)
    requires
        0 <= j < n,
        f(j).is_exact(),
        forall|k: int| 0 <= k < n && k != j ==> #[trigger] f(k) == T::zero_spec(),
    ensures
        sum(f, n) == f(j),
    decreases n,
{
    if j == n - 1 {
        lemma_sum_of_zeros(f, n - 1);
        lemma_zero_add(f(j));
    } else {
        lemma_sum_single_term(f, n - 1, j);
        T::add_zero(f(j));
    }
}

/// The sum of `f(k) + g(k)` is the sum of `f` plus the sum of `g`.
pub proof fn lemma_sum_of_sums<T: ExactScalar>(
    f: spec_fn(int) -> T,
    g: spec_fn(int) -> T,
    h: spec_fn(int) -> T,
    n: int,
)
    requires
        forall|k: int| 0 <= k < n ==> #[trigger] h(k) == f(k).add_spec(g(k)),
    ensures
        sum(h, n) == sum(f, n).add_spec(sum(g, n)),
    decreases n,
{
    if n <= 0 {
        T::constants_exact();
        T::add_zero(T::zero_spec());
    } else {
        lemma_sum_of_sums(f, g, h, n - 1);
        lemma_add_interchange(sum(f, n - 1), sum(g, n - 1), f(n - 1), g(n - 1));
    }
}

/// The sum of `c * f(k)` is `c` times the sum of `f`.
pub proof fn lemma_sum_scaled_left<T: ExactScalar>(
    c: T,
    f: spec_fn(int) -> T,
    h: spec_fn(int) -> T,
    n: int,
)
    requires
        forall|k: int| 0 <= k < n ==> #[trigger] h(k) == c.mul_spec(f(k)),
    ensures
        sum(h, n) == c.mul_spec(sum(f, n)),
    decreases n,
{
    if n <= 0 {
        lemma_mul_zero(c);
    } else {
        lemma_sum_scaled_left(c, f, h, n - 1);
        T::mul_distributes(c, sum(f, n - 1), f(n - 1));
    }
}

/// The sum of `f(k) * c` is the sum of `f` times `c`.
pub proof fn lemma_sum_scaled_right<T: ExactScalar>(
    c: T,
    f: spec_fn(int) -> T,
    h: spec_fn(int) -> T,
    n: int,
)
    requires
        forall|k: int| 0 <= k < n ==> #[trigger] h(k) == f(k).mul_spec(c),
    ensures
        sum(h, n) == sum(f, n).mul_spec(c),
    decreases n,
{
    if n <= 0 {
        lemma_zero_mul(c);
    } else {
        lemma_sum_scaled_right(c, f, h, n - 1);
        lemma_mul_distributes_right(sum(f, n - 1), f(n - 1), c);
    }
}

/// The row sums of a table of terms.
pub open spec fn row_sums<T: Scalar>(f: spec_fn(int, int) -> T, m: int) -> spec_fn(int) -> T {
    |i: int| sum(|j: int| f(i, j), m)
}

/// The column sums of a table of terms.
pub open spec fn column_sums<T: Scalar>(f: spec_fn(int, int) -> T, n: int) -> spec_fn(int) -> T {
    |j: int| sum(|i: int| f(i, j), n)
}

/// Adding a table of `n` by `m` terms row by row gives what adding it column
/// by column gives.
pub proof fn lemma_sum_interchange<T: ExactScalar>(f: spec_fn(int, int) -> T, n: int, m: int)
    ensures
        sum(row_sums(f, m), n) == sum(column_sums(f, n), m),
    decreases n,
{
    if n <= 0 {
        assert forall|j: int| 0 <= j < m implies
            #[trigger] column_sums(f, n)(j) == T::zero_spec() by {}
        lemma_sum_of_zeros(column_sums(f, n), m);
    } else {
        lemma_sum_interchange(f, n - 1, m);
        let last_row = |j: int| f(n - 1, j);
        assert forall|j: int| 0 <= j < m implies #[trigger] column_sums(f, n)(j) == column_sums(
            f,
            n - 1,
        )(j).add_spec(last_row(j)) by {}
        lemma_sum_of_sums(column_sums(f, n - 1), last_row, column_sums(f, n), m);
    }
}

} // verus!
