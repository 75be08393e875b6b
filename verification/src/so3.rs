//! Rotations of three-dimensional space.

use crate::lie::{apply_linear, LieGroup};
use crate::matrix::{
    identity_matrix, is_square, mat_mul, mat_vec, mat_view, matrix_identity, matrix_product,
    matrix_transpose, transpose,
};
use crate::scalar::Scalar;
use crate::util::{skew, skew_symmetric};
use core::ops::Mul;
use vstd::prelude::*;
use vstd::std_specs::ops::MulSpecImpl;

verus! {

/// An element of SO(3), held as its 3 by 3 matrix.
///
/// The matrix is taken as given: nothing makes it orthonormal.
#[derive(Debug, Copy, PartialEq)]
pub struct So3<T: Scalar> {
    rotation: [[T; 3]; 3],
}

/// The vector that a skew-symmetric matrix stands for: half the difference
/// of each pair of entries that mirror each other.
pub open spec fn vee3<T: Scalar>(m: Seq<Seq<T>>) -> Seq<T> {
    seq![
        T::half_spec().mul_spec(m[2][1].sub_spec(m[1][2])),
        T::half_spec().mul_spec(m[0][2].sub_spec(m[2][0])),
        T::half_spec().mul_spec(m[1][0].sub_spec(m[0][1])),
    ]
}

impl<T: Scalar> View for So3<T> {
    type V = Seq<Seq<T>>;

    /// The rotation matrix, row by row.
    closed spec fn view(&self) -> Seq<Seq<T>> {
        mat_view(self.rotation)
    }
}

impl<T: Scalar> Clone for So3<T> {
    fn clone(&self) -> (res: Self)
        ensures
            res == *self,
    {
        *self
    }
}

impl<T: Scalar> So3<T> {
    /// The rotation whose matrix is the 3 by 3 matrix `m`.
    pub closed spec fn of_matrix(m: Seq<Seq<T>>) -> So3<T> {
        So3 {
            rotation: [
                [m[0][0], m[0][1], m[0][2]],
                [m[1][0], m[1][1], m[1][2]],
                [m[2][0], m[2][1], m[2][2]],
            ],
        }
    }

    /// The view of a rotation has three rows of three entries.
    pub proof fn lemma_view_shape(self)
        ensures
            is_square(self@, 3),
    {
    }

    /// A rotation is the rotation of its matrix: the view tells rotations
    /// apart.
    pub proof fn lemma_of_view(self)
        ensures
            So3::of_matrix(self@) == self,
    {
        let other = So3::of_matrix(self@);
        assert(other.rotation[0] =~= self.rotation[0]);
        assert(other.rotation[1] =~= self.rotation[1]);
        assert(other.rotation[2] =~= self.rotation[2]);
        assert(other.rotation =~= self.rotation);
    }

    /// The matrix of the rotation of `m` is `m`.
    pub proof fn lemma_view_of_matrix(m: Seq<Seq<T>>)
        requires
            is_square(m, 3),
        ensures
            So3::of_matrix(m)@ == m,
    {
        let r = So3::of_matrix(m);
        assert(r@[0] =~= m[0]);
        assert(r@[1] =~= m[1]);
        assert(r@[2] =~= m[2]);
    }

    /// The rotation that leaves every vector where it is.
    pub fn identity() -> (res: Self)
        ensures
            res@ == identity_matrix::<T>(3),
    {
        So3 { rotation: matrix_identity() }
    }

    /// The rotation with the given matrix.
    pub fn from_matrix(matrix: [[T; 3]; 3]) -> (res: Self)
        ensures
            res@ == mat_view(matrix),
    {
        So3 { rotation: matrix }
    }

    /// `self * other`: the rotation that applies `other` first, then `self`.
    pub fn compose(&self, other: &Self) -> (res: Self)
        ensures
            res@ == mat_mul(self@, other@),
    {
        So3 { rotation: matrix_product(&self.rotation, &other.rotation) }
    }

    /// The inverse rotation, which is the transpose.
    pub fn inverse(&self) -> (res: Self)
        ensures
            res@ == transpose(self@),
    {
        So3 { rotation: matrix_transpose(&self.rotation) }
    }

    /// The image of `vector` under the rotation.
    pub fn apply(&self, vector: [T; 3]) -> (res: [T; 3])
        ensures
            res@ == mat_vec(self@, vector@),
    {
        apply_linear(&self.rotation, vector)
    }

    /// The skew-symmetric matrix of `vector`.
    pub fn hat(vector: [T; 3]) -> (res: [[T; 3]; 3])
        ensures
            mat_view(res) == skew(vector@),
    {
        skew_symmetric(&vector)
    }

    /// The vector of a skew-symmetric matrix. A matrix that is only nearly
    /// skew-symmetric is accepted: the two entries of each pair are averaged.
    pub fn vee(matrix: [[T; 3]; 3]) -> (res: [T; 3])
        ensures
            res@ == vee3(mat_view(matrix)),
    {
        let half = T::half();
        [
            half.mul(matrix[2][1].sub(matrix[1][2])),
            half.mul(matrix[0][2].sub(matrix[2][0])),
            half.mul(matrix[1][0].sub(matrix[0][1])),
        ]
    }

    /// The rotation matrix.
    pub fn to_matrix(&self) -> (res: [[T; 3]; 3])
        ensures
            mat_view(res) == self@,
    {
        self.rotation
    }

    /// The rotation matrix, borrowed.
    pub fn rotation(&self) -> (res: &[[T; 3]; 3])
        ensures
            mat_view(*res) == self@,
    {
        &self.rotation
    }
}

impl<T: Scalar> LieGroup<T, 3> for So3<T> {
    open spec fn matrix_spec(&self) -> Seq<Seq<T>> {
        self@
    }

    open spec fn compose_spec(&self, other: &Self) -> Seq<Seq<T>> {
        mat_mul(self@, other@)
    }

    open spec fn inverse_spec(&self) -> Seq<Seq<T>> {
        transpose(self@)
    }

    fn identity() -> (res: Self)
        ensures
            res@ == identity_matrix::<T>(3),
    {
        So3::identity()
    }

    fn compose(&self, other: &Self) -> (res: Self)
        ensures
            res@ == mat_mul(self@, other@),
    {
        So3::compose(self, other)
    }

    fn inverse(&self) -> (res: Self)
        ensures
            res@ == transpose(self@),
    {
        So3::inverse(self)
    }

    fn as_matrix(&self) -> (res: [[T; 3]; 3])
        ensures
            mat_view(res) == self@,
    {
        self.rotation
    }
}

impl<T: Scalar> Mul for So3<T> {
    type Output = So3<T>;

    /// `self * rhs` is `self.compose(&rhs)`.
    fn mul(self, rhs: So3<T>) -> (res: So3<T>)
        ensures
            res@ == mat_mul(self@, rhs@),
    {
        let res = So3::compose(&self, &rhs);
        proof {
            res.lemma_of_view();
        }
        res
    }
}

impl<T: Scalar> MulSpecImpl for So3<T> {
    open spec fn obeys_mul_spec() -> bool {
        true
    }

    open spec fn mul_req(self, rhs: So3<T>) -> bool {
        true
    }

    open spec fn mul_spec(self, rhs: So3<T>) -> So3<T> {
        So3::of_matrix(mat_mul(self@, rhs@))
    }
}

} // verus!
