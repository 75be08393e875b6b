//! Linear algebra over an exact scalar: what holds of the products and sums
//! of the matrix model when the scalars form a commutative ring.

use crate::matrix::{
    column, dot, dot_terms, identity_matrix, is_square, mat_add, mat_div, mat_mul, mat_vec, vec_add,
    vec_div, vec_neg, zero_matrix, zero_vector,
};
use crate::ring::{lemma_mul_neg, lemma_mul_zero, lemma_neg_add, lemma_neg_zero, lemma_zero_add};
use crate::scalar::ExactScalar;
use crate::sums::{
    column_sums, lemma_sum_congruence, lemma_sum_exact, lemma_sum_interchange, lemma_sum_of_sums,
    lemma_sum_of_zeros, lemma_sum_scaled_left, lemma_sum_scaled_right, lemma_sum_single_term,
    row_sums, sum,
};
use vstd::prelude::*;

verus! {

/// Whether every entry of a vector is canonical.
pub open spec fn exact_vector<T: ExactScalar>(v: Seq<T>) -> bool {
    forall|i: int| 0 <= i < v.len() ==> (#[trigger] v[i]).is_exact()
}

/// Whether every entry of a matrix is canonical.
pub open spec fn exact_matrix<T: ExactScalar>(m: Seq<Seq<T>>) -> bool {
    forall|r: int, c: int|
        0 <= r < m.len() && 0 <= c < m[r].len() ==> (#[trigger] m[r][c]).is_exact()
}

/// A scalar product is canonical.
pub proof fn lemma_dot_exact<T: ExactScalar>(a: Seq<T>, b: Seq<T>)
    ensures
        dot(a, b).is_exact(),
{
    lemma_sum_exact(dot_terms(a, b), a.len() as int);
}

/// One row of `(a * b) * x = a * (b * x)`.
proof fn lemma_row_associates<T: ExactScalar>(row: Seq<T>, b: Seq<Seq<T>>, x: Seq<T>, n: nat)
    requires
        row.len() == n,
        is_square(b, n),
        x.len() == n,
    ensures
        dot(Seq::new(n, |c: int| dot(row, column(b, c))), x) == dot(row, mat_vec(b, x)),
{
    let len = n as int;
    let table = |c: int, k: int| row[k].mul_spec(b[k][c]).mul_spec(x[c]);
    let product_row = Seq::new(n, |c: int| dot(row, column(b, c)));
    assert forall|c: int| 0 <= c < len implies #[trigger] dot_terms(product_row, x)(c) == row_sums(
        table,
        len,
    )(c) by {
        let inner = |k: int| row[k].mul_spec(b[k][c]);
        let scaled = |k: int| table(c, k);
        lemma_sum_congruence(dot_terms(row, column(b, c)), inner, len);
        lemma_sum_scaled_right(x[c], inner, scaled, len);
    }
    lemma_sum_congruence(dot_terms(product_row, x), row_sums(table, len), len);
    lemma_sum_interchange(table, len, len);
    assert forall|k: int| 0 <= k < len implies #[trigger] column_sums(table, len)(k) == dot_terms(
        row,
        mat_vec(b, x),
    )(k) by {
        let inner = |c: int| b[k][c].mul_spec(x[c]);
        let scaled = |c: int| row[k].mul_spec(inner(c));
        let tabled = |c: int| table(c, k);
        assert forall|c: int| 0 <= c < len implies #[trigger] tabled(c) == scaled(c) by {
            T::mul_associates(row[k], b[k][c], x[c]);
        }
        lemma_sum_congruence(tabled, scaled, len);
        lemma_sum_scaled_left(row[k], inner, scaled, len);
    }
    lemma_sum_congruence(column_sums(table, len), dot_terms(row, mat_vec(b, x)), len);
}

/// `(a * b) * x = a * (b * x)` for square matrices `a`, `b` and a vector
/// `x` of one size.
pub proof fn lemma_mat_vec_associates<T: ExactScalar>(
    a: Seq<Seq<T>>,
    b: Seq<Seq<T>>,
    x: Seq<T>,
    n: nat,
)
    requires
        is_square(a, n),
        is_square(b, n),
        x.len() == n,
    ensures
        mat_vec(mat_mul(a, b), x) == mat_vec(a, mat_vec(b, x)),
{
    assert forall|r: int| 0 <= r < n implies mat_vec(mat_mul(a, b), x)[r] == mat_vec(
        a,
        mat_vec(b, x),
    )[r] by {
        lemma_row_associates(a[r], b, x, n);
    }
}

/// `a * (u + v) = a * u + a * v`.
pub proof fn lemma_mat_vec_distributes<T: ExactScalar>(a: Seq<Seq<T>>, u: Seq<T>, v: Seq<T>, n: nat)
    requires
        is_square(a, n),
        u.len() == n,
        v.len() == n,
    ensures
        mat_vec(a, vec_add(u, v)) == vec_add(mat_vec(a, u), mat_vec(a, v)),
{
    let len = n as int;
    assert forall|r: int| 0 <= r < n implies mat_vec(a, vec_add(u, v))[r] == vec_add(
        mat_vec(a, u),
        mat_vec(a, v),
    )[r] by {
        let row = a[r];
        assert forall|k: int| 0 <= k < len implies #[trigger] dot_terms(row, vec_add(u, v))(k)
            == dot_terms(row, u)(k).add_spec(dot_terms(row, v)(k)) by {
            T::mul_distributes(row[k], u[k], v[k]);
        }
        lemma_sum_of_sums(dot_terms(row, u), dot_terms(row, v), dot_terms(row, vec_add(u, v)), len);
    }
}

/// `a * (-u) = -(a * u)`.
pub proof fn lemma_mat_vec_negates<T: ExactScalar>(a: Seq<Seq<T>>, u: Seq<T>, n: nat)
    requires
        is_square(a, n),
        u.len() == n,
    ensures
        mat_vec(a, vec_neg(u)) == vec_neg(mat_vec(a, u)),
{
    let len = n as int;
    assert forall|r: int| 0 <= r < n implies
        mat_vec(a, vec_neg(u))[r] == vec_neg(mat_vec(a, u))[r] by {
        let row = a[r];
        lemma_dot_negates(row, u, len);
    }
}

/// `row . (-u) = -(row . u)`, over the first `k` terms.
proof fn lemma_dot_negates<T: ExactScalar>(row: Seq<T>, u: Seq<T>, k: int)
    requires
        0 <= k <= row.len(),
        row.len() == u.len(),
    ensures
        sum(dot_terms(row, vec_neg(u)), k) == sum(dot_terms(row, u), k).neg_spec(),
    decreases k,
{
    if k == 0 {
        lemma_neg_zero::<T>();
    } else {
        lemma_dot_negates(row, u, k - 1);
        lemma_mul_neg(row[k - 1], u[k - 1]);
        lemma_neg_add(sum(dot_terms(row, u), k - 1), row[k - 1].mul_spec(u[k - 1]));
    }
}

/// `a * 0 = 0`.
pub proof fn lemma_mat_vec_zero<T: ExactScalar>(a: Seq<Seq<T>>, n: nat)
    requires
        is_square(a, n),
    ensures
        mat_vec(a, zero_vector::<T>(n)) == zero_vector::<T>(n),
{
    assert forall|r: int| 0 <= r < n implies
        mat_vec(a, zero_vector::<T>(n))[r] == T::zero_spec() by {
        let terms = dot_terms(a[r], zero_vector::<T>(n));
        assert forall|k: int| 0 <= k < n implies #[trigger] terms(k) == T::zero_spec() by {
            lemma_mul_zero(a[r][k]);
        }
        lemma_sum_of_zeros(terms, n as int);
    }
}

/// `I * x = x`.
pub proof fn lemma_identity_mat_vec<T: ExactScalar>(x: Seq<T>)
    requires
        exact_vector(x),
    ensures
        mat_vec(identity_matrix::<T>(x.len()), x) == x,
{
    let n = x.len();
    let eye = identity_matrix::<T>(n);
    assert forall|r: int| 0 <= r < n implies mat_vec(eye, x)[r] == x[r] by {
        let terms = dot_terms(eye[r], x);
        assert forall|k: int| 0 <= k < n && k != r implies
            #[trigger] terms(k) == T::zero_spec() by {
            crate::ring::lemma_zero_mul(x[k]);
        }
        crate::ring::lemma_one_mul(x[r]);
        lemma_sum_single_term(terms, n as int, r);
    }
}

/// `a * I = a`.
pub proof fn lemma_mat_mul_identity<T: ExactScalar>(a: Seq<Seq<T>>, n: nat)
    requires
        is_square(a, n),
        exact_matrix(a),
    ensures
        mat_mul(a, identity_matrix::<T>(n)) == a,
{
    let eye = identity_matrix::<T>(n);
    assert forall|r: int, c: int| 0 <= r < n && 0 <= c < n implies
        mat_mul(a, eye)[r][c] == a[r][c] by {
        let terms = dot_terms(a[r], column(eye, c));
        assert forall|k: int| 0 <= k < n && k != c implies
            #[trigger] terms(k) == T::zero_spec() by {
            lemma_mul_zero(a[r][k]);
        }
        T::mul_one(a[r][c]);
        lemma_sum_single_term(terms, n as int, c);
    }
    assert(mat_mul(a, eye) =~~= a);
}

/// `u + 0 = u`.
pub proof fn lemma_vec_add_zero<T: ExactScalar>(u: Seq<T>)
    requires
        exact_vector(u),
    ensures
        vec_add(u, zero_vector::<T>(u.len())) == u,
{
    assert forall|i: int| 0 <= i < u.len() implies
        vec_add(u, zero_vector::<T>(u.len()))[i] == u[i] by {
        T::add_zero(u[i]);
    }
}

/// `u + (-u) = 0`.
pub proof fn lemma_vec_add_negation<T: ExactScalar>(u: Seq<T>)
    ensures
        vec_add(u, vec_neg(u)) == zero_vector::<T>(u.len()),
{
    assert forall|i: int| 0 <= i < u.len() implies vec_add(u, vec_neg(u))[i] == T::zero_spec() by {
        T::add_negation(u[i]);
    }
}

/// A product of matrices has canonical entries.
pub proof fn lemma_mat_mul_exact<T: ExactScalar>(a: Seq<Seq<T>>, b: Seq<Seq<T>>)
    ensures
        exact_matrix(mat_mul(a, b)),
{
    assert forall|r: int, c: int|
        0 <= r < mat_mul(a, b).len() && 0 <= c < mat_mul(a, b)[r].len() implies (#[trigger] mat_mul(
        a,
        b,
    )[r][c]).is_exact() by {
        lemma_dot_exact(a[r], column(b, c));
    }
}

/// `I * a = a`.
pub proof fn lemma_identity_mat_mul<T: ExactScalar>(a: Seq<Seq<T>>, n: nat)
    requires
        is_square(a, n),
        exact_matrix(a),
    ensures
        mat_mul(identity_matrix::<T>(n), a) == a,
{
    let eye = identity_matrix::<T>(n);
    assert forall|r: int, c: int| 0 <= r < n && 0 <= c < n implies
        mat_mul(eye, a)[r][c] == a[r][c] by {
        let terms = dot_terms(eye[r], column(a, c));
        assert forall|k: int| 0 <= k < n && k != r implies
            #[trigger] terms(k) == T::zero_spec() by {
            crate::ring::lemma_zero_mul(a[k][c]);
        }
        crate::ring::lemma_one_mul(a[r][c]);
        lemma_sum_single_term(terms, n as int, r);
    }
    assert(mat_mul(eye, a) =~~= a);
}

/// `0 + a = a`.
pub proof fn lemma_zero_mat_add<T: ExactScalar>(a: Seq<Seq<T>>, n: nat)
    requires
        is_square(a, n),
        exact_matrix(a),
    ensures
        mat_add(zero_matrix::<T>(n), a) == a,
{
    assert forall|r: int, c: int| 0 <= r < n && 0 <= c < n implies
        mat_add(zero_matrix::<T>(n), a)[r][c]
        == a[r][c] by {
        lemma_zero_add(a[r][c]);
    }
    assert(mat_add(zero_matrix::<T>(n), a) =~~= a);
}

/// `a + b = b + a`.
pub proof fn lemma_mat_add_commutes<T: ExactScalar>(a: Seq<Seq<T>>, b: Seq<Seq<T>>, n: nat)
    requires
        is_square(a, n),
        is_square(b, n),
    ensures
        mat_add(a, b) == mat_add(b, a),
{
    assert forall|r: int, c: int| 0 <= r < n && 0 <= c < n implies mat_add(a, b)[r][c] == mat_add(
        b,
        a,
    )[r][c] by {
        T::add_commutes(a[r][c], b[r][c]);
    }
    assert(mat_add(a, b) =~~= mat_add(b, a));
}

/// `a / 1 = a`.
pub proof fn lemma_mat_div_one<T: ExactScalar>(a: Seq<Seq<T>>)
    requires
        exact_matrix(a),
    ensures
        mat_div(a, T::one_spec()) == a,
{
    assert forall|r: int, c: int| 0 <= r < a.len() && 0 <= c < a[r].len() implies mat_div(
        a,
        T::one_spec(),
    )[r][c] == a[r][c] by {
        T::div_one(a[r][c]);
    }
    assert(mat_div(a, T::one_spec()) =~~= a);
}

/// `v / 1 = v`.
pub proof fn lemma_vec_div_one<T: ExactScalar>(v: Seq<T>)
    requires
        exact_vector(v),
    ensures
        vec_div(v, T::one_spec()) == v,
{
    assert forall|i: int| 0 <= i < v.len() implies vec_div(v, T::one_spec())[i] == v[i] by {
        T::div_one(v[i]);
    }
}

/// `(a * b) * c = a * (b * c)` for square matrices of one size.
pub proof fn lemma_mat_mul_associates<T: ExactScalar>(
    a: Seq<Seq<T>>,
    b: Seq<Seq<T>>,
    c: Seq<Seq<T>>,
    n: nat,
)
    requires
        is_square(a, n),
        is_square(b, n),
        is_square(c, n),
    ensures
        mat_mul(mat_mul(a, b), c) == mat_mul(a, mat_mul(b, c)),
{
    let left = mat_mul(mat_mul(a, b), c);
    let right = mat_mul(a, mat_mul(b, c));
    assert forall|r: int, j: int| 0 <= r < n && 0 <= j < n implies left[r][j] == right[r][j] by {
        lemma_row_associates(a[r], b, column(c, j), n);
        assert(column(mat_mul(b, c), j) =~= mat_vec(b, column(c, j)));
    }
    assert(left =~~= right);
}

/// `(u + v) + w = u + (v + w)`.
pub proof fn lemma_vec_add_associates<T: ExactScalar>(u: Seq<T>, v: Seq<T>, w: Seq<T>)
    requires
        u.len() == v.len(),
        u.len() == w.len(),
    ensures
        vec_add(vec_add(u, v), w) == vec_add(u, vec_add(v, w)),
{
    assert forall|i: int| 0 <= i < u.len() implies vec_add(vec_add(u, v), w)[i] == vec_add(
        u,
        vec_add(v, w),
    )[i] by {
        T::add_associates(u[i], v[i], w[i]);
    }
}

} // verus!
