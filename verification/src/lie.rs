//! What the motion groups share: a matrix representation, and the action of
//! a matrix on a vector.

use crate::matrix::{identity_matrix, mat_vec, mat_view, row_dot};
use crate::scalar::Scalar;
use vstd::prelude::*;

verus! {

/// A group whose elements have a square matrix of side `MAT_DIM`.
///
/// The matrix tells the elements apart, so each operation is specified by
/// the matrix of its result.
pub trait LieGroup<T: Scalar, const MAT_DIM: usize>: Sized {
    /// The matrix of this element.
    spec fn matrix_spec(&self) -> Seq<Seq<T>>;

    /// The matrix of `self` followed after `other`.
    spec fn compose_spec(&self, other: &Self) -> Seq<Seq<T>>;

    /// The matrix of the inverse element.
    spec fn inverse_spec(&self) -> Seq<Seq<T>>;

    fn identity() -> (res: Self)
        ensures
            res.matrix_spec() == identity_matrix::<T>(MAT_DIM as nat),
    ;

    fn compose(&self, other: &Self) -> (res: Self)
        ensures
            res.matrix_spec() == self.compose_spec(other),
    ;

    fn inverse(&self) -> (res: Self)
        ensures
            res.matrix_spec() == self.inverse_spec(),
    ;

    fn as_matrix(&self) -> (res: [[T; MAT_DIM]; MAT_DIM])
        ensures
            mat_view(res) == self.matrix_spec(),
    ;
}

/// A group element that acts on its Lie algebra by a matrix of side
/// `ADJ_DIM`.
pub trait HasAdjoint<T: Scalar, const ADJ_DIM: usize> {
    /// The matrix of the adjoint action.
    spec fn adjoint_spec(&self) -> Seq<Seq<T>>;

    fn adjoint_matrix(&self) -> (res: [[T; ADJ_DIM]; ADJ_DIM])
        ensures
            mat_view(res) == self.adjoint_spec(),
    ;
}

/// The product of `matrix` and the column vector `vector`.
pub fn apply_linear<T: Scalar, const DIM: usize>(
    matrix: &[[T; DIM]; DIM],
    vector: [T; DIM],
) -> (res: [T; DIM])
    ensures
        res@ == mat_vec(mat_view(*matrix), vector@),
{
    let mut res: [T; DIM] = [T::zero();DIM];
    let mut r: usize = 0;
    while r < DIM
        invariant
            r <= DIM,
            forall|i: int| 0 <= i < r ==> res[i] == mat_vec(mat_view(*matrix), vector@)[i],
        decreases DIM - r,
    {
        res[r] = row_dot(&matrix[r], &vector);
        r = r + 1;
    }
    res
}

} // verus!
