//! Small dense matrices and vectors: the model that contracts speak of, and
//! the operations on fixed-size arrays that compute it.
//!
//! A vector is modelled as a `Seq` of scalars, a matrix as the `Seq` of its
//! rows. Products add their terms up from the first to the last.

use crate::scalar::Scalar;
use crate::sums::sum;
use vstd::prelude::*;

verus! {

/// The rows of a square array.
pub open spec fn mat_view<T, const N: usize>(m: [[T; N]; N]) -> Seq<Seq<T>> {
    Seq::new(N as nat, |r: int| m[r]@)
}

/// The vectors of a list, in order.
pub open spec fn vecs_view<T, const N: usize>(vs: Seq<[T; N]>) -> Seq<Seq<T>> {
    Seq::new(vs.len(), |i: int| vs[i]@)
}

/// The rows of a matrix held as one `Vec` per row.
pub open spec fn rows_view<T>(rows: Seq<Vec<T>>) -> Seq<Seq<T>> {
    Seq::new(rows.len(), |r: int| rows[r]@)
}

/// Whether `m` has `n` rows of `n` entries each.
pub open spec fn is_square<T>(m: Seq<Seq<T>>, n: nat) -> bool {
    &&& m.len() == n
    &&& forall|r: int| 0 <= r < n ==> (#[trigger] m[r]).len() == n
}

/// Column `c` of a matrix.
pub open spec fn column<T>(m: Seq<Seq<T>>, c: int) -> Seq<T> {
    Seq::new(m.len(), |k: int| m[k][c])
}

/// The terms of the scalar product of `a` and `b`.
pub open spec fn dot_terms<T: Scalar>(a: Seq<T>, b: Seq<T>) -> spec_fn(int) -> T {
    |k: int| a[k].mul_spec(b[k])
}

/// The scalar product of `a` and `b`, over the length of `a`.
pub open spec fn dot<T: Scalar>(a: Seq<T>, b: Seq<T>) -> T {
    sum(dot_terms(a, b), a.len() as int)
}

/// The product of a matrix and a column vector.
pub open spec fn mat_vec<T: Scalar>(m: Seq<Seq<T>>, v: Seq<T>) -> Seq<T> {
    Seq::new(m.len(), |r: int| dot(m[r], v))
}

/// The product of two square matrices of one size.
pub open spec fn mat_mul<T: Scalar>(a: Seq<Seq<T>>, b: Seq<Seq<T>>) -> Seq<Seq<T>> {
    Seq::new(a.len(), |r: int| Seq::new(a.len(), |c: int| dot(a[r], column(b, c))))
}

/// The `n` by `n` identity matrix.
pub open spec fn identity_matrix<T: Scalar>(n: nat) -> Seq<Seq<T>> {
    Seq::new(
        n,
        |r: int|
            Seq::new(
                n,
                |c: int|
                    if r == c {
                        T::one_spec()
                    } else {
                        T::zero_spec()
                    },
            ),
    )
}

/// The `n` by `n` matrix of zeros.
pub open spec fn zero_matrix<T: Scalar>(n: nat) -> Seq<Seq<T>> {
    Seq::new(n, |r: int| Seq::new(n, |c: int| T::zero_spec()))
}

/// The vector of `n` zeros.
pub open spec fn zero_vector<T: Scalar>(n: nat) -> Seq<T> {
    Seq::new(n, |i: int| T::zero_spec())
}

/// The transpose of a square matrix.
pub open spec fn transpose<T>(m: Seq<Seq<T>>) -> Seq<Seq<T>> {
    Seq::new(m.len(), |r: int| Seq::new(m.len(), |c: int| m[c][r]))
}

/// The entrywise sum of two matrices.
pub open spec fn mat_add<T: Scalar>(a: Seq<Seq<T>>, b: Seq<Seq<T>>) -> Seq<Seq<T>> {
    Seq::new(a.len(), |r: int| Seq::new(a[r].len(), |c: int| a[r][c].add_spec(b[r][c])))
}

/// `s * m`, entry by entry.
pub open spec fn mat_scale<T: Scalar>(s: T, m: Seq<Seq<T>>) -> Seq<Seq<T>> {
    Seq::new(m.len(), |r: int| Seq::new(m[r].len(), |c: int| s.mul_spec(m[r][c])))
}

/// `m / d`, entry by entry.
pub open spec fn mat_div<T: Scalar>(m: Seq<Seq<T>>, d: T) -> Seq<Seq<T>> {
    Seq::new(m.len(), |r: int| Seq::new(m[r].len(), |c: int| m[r][c].div_spec(d)))
}

/// The entrywise sum of two vectors.
pub open spec fn vec_add<T: Scalar>(a: Seq<T>, b: Seq<T>) -> Seq<T> {
    Seq::new(a.len(), |i: int| a[i].add_spec(b[i]))
}

/// The entrywise negation of a vector.
pub open spec fn vec_neg<T: Scalar>(a: Seq<T>) -> Seq<T> {
    Seq::new(a.len(), |i: int| a[i].neg_spec())
}

/// `v * s`, entry by entry.
pub open spec fn vec_scale<T: Scalar>(v: Seq<T>, s: T) -> Seq<T> {
    Seq::new(v.len(), |i: int| v[i].mul_spec(s))
}

/// `v / d`, entry by entry.
pub open spec fn vec_div<T: Scalar>(v: Seq<T>, d: T) -> Seq<T> {
    Seq::new(v.len(), |i: int| v[i].div_spec(d))
}

/// The scalar product of `row` and `v`.
pub fn row_dot<T: Scalar, const N: usize>(row: &[T; N], v: &[T; N]) -> (res: T)
    ensures
        res == dot(row@, v@),
{
    let mut acc: T = T::zero();
    let mut k: usize = 0;
    while k < N
        invariant
            k <= N,
            acc == sum(dot_terms(row@, v@), k as int),
        decreases N - k,
    {
        acc = acc.add(row[k].mul(v[k]));
        k = k + 1;
    }
    acc
}

/// Column `c` of `m` as a vector.
pub fn matrix_column<T: Scalar, const N: usize>(m: &[[T; N]; N], c: usize) -> (res: [T; N])
    requires
        c < N,
    ensures
        res@ == column(mat_view(*m), c as int),
{
    let mut res: [T; N] = [T::zero();N];
    let mut k: usize = 0;
    while k < N
        invariant
            k <= N,
            c < N,
            forall|i: int| 0 <= i < k ==> res[i] == m[i][c as int],
        decreases N - k,
    {
        res[k] = m[k][c];
        k = k + 1;
    }
    res
}

/// The matrix of zeros.
pub fn matrix_zeros<T: Scalar, const N: usize>() -> (res: [[T; N]; N])
    ensures
        mat_view(res) == zero_matrix::<T>(N as nat),
{
    let res: [[T; N]; N] = [[T::zero();N];N];
    assert(mat_view(res) =~~= zero_matrix::<T>(N as nat));
    res
}

/// The identity matrix.
pub fn matrix_identity<T: Scalar, const N: usize>() -> (res: [[T; N]; N])
    ensures
        mat_view(res) == identity_matrix::<T>(N as nat),
{
    let mut res: [[T; N]; N] = [[T::zero();N];N];
    let mut r: usize = 0;
    while r < N
        invariant
            r <= N,
            forall|i: int, j: int|
                0 <= i < N && 0 <= j < N ==> res[i][j] == if i == j && i < r {
                    T::one_spec()
                } else {
                    T::zero_spec()
                },
        decreases N - r,
    {
        res[r][r] = T::one();
        r = r + 1;
    }
    assert(mat_view(res) =~~= identity_matrix::<T>(N as nat));
    res
}

/// The product `a * b`.
pub fn matrix_product<T: Scalar, const N: usize>(a: &[[T; N]; N], b: &[[T; N]; N]) -> (res: [
    [T; N]; N
])
    ensures
        mat_view(res) == mat_mul(mat_view(*a), mat_view(*b)),
{
    let mut res: [[T; N]; N] = [[T::zero();N];N];
    let mut c: usize = 0;
    while c < N
        invariant
            c <= N,
            forall|i: int, j: int|
                0 <= i < N && 0 <= j < c ==> res[i][j] == dot(
                    mat_view(*a)[i],
                    column(mat_view(*b), j),
                ),
        decreases N - c,
    {
        let col = matrix_column(b, c);
        let mut r: usize = 0;
        while r < N
            invariant
                r <= N,
                c < N,
                col@ == column(mat_view(*b), c as int),
                forall|i: int, j: int|
                    0 <= i < N && 0 <= j < c ==> res[i][j] == dot(
                        mat_view(*a)[i],
                        column(mat_view(*b), j),
                    ),
                forall|i: int|
                    0 <= i < r ==> res[i][c as int] == dot(
                        mat_view(*a)[i],
                        column(mat_view(*b), c as int),
                    ),
            decreases N - r,
        {
            res[r][c] = row_dot(&a[r], &col);
            r = r + 1;
        }
        c = c + 1;
    }
    assert(mat_view(res) =~~= mat_mul(mat_view(*a), mat_view(*b)));
    res
}

/// The transpose of `m`.
pub fn matrix_transpose<T: Scalar, const N: usize>(m: &[[T; N]; N]) -> (res: [[T; N]; N])
    ensures
        mat_view(res) == transpose(mat_view(*m)),
{
    let mut res: [[T; N]; N] = [[T::zero();N];N];
    let mut r: usize = 0;
    while r < N
        invariant
            r <= N,
            forall|i: int, j: int| 0 <= i < r && 0 <= j < N ==> res[i][j] == m[j][i],
        decreases N - r,
    {
        res[r] = matrix_column(m, r);
        r = r + 1;
    }
    assert(mat_view(res) =~~= transpose(mat_view(*m)));
    res
}

/// The entrywise sum `a + b`.
pub fn vector_sum<T: Scalar, const N: usize>(a: &[T; N], b: &[T; N]) -> (res: [T; N])
    ensures
        res@ == vec_add(a@, b@),
{
    let mut res: [T; N] = [T::zero();N];
    let mut i: usize = 0;
    while i < N
        invariant
            i <= N,
            forall|k: int| 0 <= k < i ==> res[k] == a[k].add_spec(b[k]),
        decreases N - i,
    {
        res[i] = a[i].add(b[i]);
        i = i + 1;
    }
    res
}

/// The entrywise negation `-a`.
pub fn vector_negation<T: Scalar, const N: usize>(a: &[T; N]) -> (res: [T; N])
    ensures
        res@ == vec_neg(a@),
{
    let mut res: [T; N] = [T::zero();N];
    let mut i: usize = 0;
    while i < N
        invariant
            i <= N,
            forall|k: int| 0 <= k < i ==> res[k] == a[k].neg_spec(),
        decreases N - i,
    {
        res[i] = a[i].neg();
        i = i + 1;
    }
    res
}

/// The entrywise quotient `v / d`.
pub fn vector_quotient<T: Scalar, const N: usize>(v: &[T; N], d: T) -> (res: [T; N])
    ensures
        res@ == vec_div(v@, d),
{
    let mut res: [T; N] = [T::zero();N];
    let mut i: usize = 0;
    while i < N
        invariant
            i <= N,
            forall|k: int| 0 <= k < i ==> res[k] == v[k].div_spec(d),
        decreases N - i,
    {
        res[i] = v[i].div(d);
        i = i + 1;
    }
    res
}

/// The entrywise sum `a + b`.
pub fn matrix_sum<T: Scalar, const N: usize>(a: &[[T; N]; N], b: &[[T; N]; N]) -> (res: [[T; N]; N])
    ensures
        mat_view(res) == mat_add(mat_view(*a), mat_view(*b)),
{
    let mut res: [[T; N]; N] = [[T::zero();N];N];
    let mut r: usize = 0;
    while r < N
        invariant
            r <= N,
            forall|i: int| 0 <= i < r ==> res[i]@ == vec_add(a[i]@, b[i]@),
        decreases N - r,
    {
        res[r] = vector_sum(&a[r], &b[r]);
        r = r + 1;
    }
    res
}

/// The entrywise product `s * m`.
pub fn matrix_scaled<T: Scalar, const N: usize>(s: T, m: &[[T; N]; N]) -> (res: [[T; N]; N])
    ensures
        mat_view(res) == mat_scale(s, mat_view(*m)),
{
    let mut res: [[T; N]; N] = [[T::zero();N];N];
    let mut r: usize = 0;
    while r < N
        invariant
            r <= N,
            forall|i: int, j: int| 0 <= i < r && 0 <= j < N ==> res[i][j] == s.mul_spec(m[i][j]),
        decreases N - r,
    {
        let mut c: usize = 0;
        while c < N
            invariant
                c <= N,
                r < N,
                forall|i: int, j: int|
                    0 <= i < r && 0 <= j < N ==> res[i][j] == s.mul_spec(m[i][j]),
                forall|j: int| 0 <= j < c ==> res[r as int][j] == s.mul_spec(m[r as int][j]),
            decreases N - c,
        {
            res[r][c] = s.mul(m[r][c]);
            c = c + 1;
        }
        r = r + 1;
    }
    assert(mat_view(res) =~~= mat_scale(s, mat_view(*m)));
    res
}

/// The entrywise quotient `m / d`.
pub fn matrix_quotient<T: Scalar, const N: usize>(m: &[[T; N]; N], d: T) -> (res: [[T; N]; N])
    ensures
        mat_view(res) == mat_div(mat_view(*m), d),
{
    let mut res: [[T; N]; N] = [[T::zero();N];N];
    let mut r: usize = 0;
    while r < N
        invariant
            r <= N,
            forall|i: int| 0 <= i < r ==> res[i]@ == vec_div(m[i]@, d),
        decreases N - r,
    {
        res[r] = vector_quotient(&m[r], d);
        r = r + 1;
    }
    res
}

} // verus!
