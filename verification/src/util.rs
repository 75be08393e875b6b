//! The cross-product matrix of a vector in three dimensions.

use crate::matrix::mat_view;
use crate::scalar::Scalar;
use vstd::prelude::*;

verus! {

/// The skew-symmetric matrix `[v]x`, for which `[v]x * u` is the cross
/// product of `v` and `u`.
pub open spec fn skew<T: Scalar>(v: Seq<T>) -> Seq<Seq<T>> {
    seq![
        seq![T::zero_spec(), v[2].neg_spec(), v[1]],
        seq![v[2], T::zero_spec(), v[0].neg_spec()],
        seq![v[1].neg_spec(), v[0], T::zero_spec()],
    ]
}

/// The cross product of `v` and `u`.
pub open spec fn cross<T: Scalar>(v: Seq<T>, u: Seq<T>) -> Seq<T> {
    seq![
        v[1].mul_spec(u[2]).sub_spec(v[2].mul_spec(u[1])),
        v[2].mul_spec(u[0]).sub_spec(v[0].mul_spec(u[2])),
        v[0].mul_spec(u[1]).sub_spec(v[1].mul_spec(u[0])),
    ]
}

/// Whether the 3 by 3 matrix `m` is skew-symmetric: a zero diagonal, and
/// over it the negation of what is under it.
pub open spec fn is_skew<T: Scalar>(m: Seq<Seq<T>>) -> bool {
    &&& m.len() == 3
    &&& m[0].len() == 3 && m[1].len() == 3 && m[2].len() == 3
    &&& m[0][0] == T::zero_spec() && m[1][1] == T::zero_spec() && m[2][2] == T::zero_spec()
    &&& m[0][1] == m[1][0].neg_spec()
    &&& m[0][2].neg_spec() == m[2][0]
    &&& m[1][2] == m[2][1].neg_spec()
}

/// Builds `[v]x`.
pub fn skew_symmetric<T: Scalar>(vector: &[T; 3]) -> (res: [[T; 3]; 3])
    ensures
        mat_view(res) == skew(vector@),
{
    let zero = T::zero();
    [
        [zero, vector[2].neg(), vector[1]],
        [vector[2], zero, vector[0].neg()],
        [vector[1].neg(), vector[0], zero],
    ]
}

} // verus!
