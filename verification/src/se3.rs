//! Rigid transforms of three-dimensional space: a rotation followed by a
//! translation.

use crate::lie::{apply_linear, HasAdjoint, LieGroup};
use crate::matrix::{
    identity_matrix, is_square, mat_add, mat_mul, mat_scale, mat_vec, mat_view, matrix_identity,
    matrix_product, matrix_scaled, matrix_sum, matrix_zeros, transpose, vec_add, vec_neg, vec_scale,
    vector_negation, vector_sum, zero_matrix, zero_vector,
};
use crate::scalar::Scalar;
use crate::so3::{vee3, So3};
use crate::util::{skew, skew_symmetric};
use core::ops::Mul;
use vstd::prelude::*;
use vstd::std_specs::ops::MulSpecImpl;

verus! {

/// An element of SE(3): the map `x -> R * x + t`.
#[derive(Debug, Copy, PartialEq)]
pub struct Se3<T: Scalar> {
    rotation: So3<T>,
    translation: [T; 3],
}

/// How the translation part of a twist is coupled to its rotation part in
/// the exponential map. The caller measures the rotation angle `theta` of
/// the scaled twist and says which case holds.
#[derive(Debug, Copy, PartialEq)]
pub enum ExpCoupling<T> {
    /// `theta` is zero: the coupling matrix is `I + 1/2 * 0`.
    ZeroAngle,
    /// `theta` is not zero, but too small to divide by: the coupling matrix
    /// is `I + 1/2 * [w]x`.
    SmallAngle,
    /// The coupling matrix is `I + first * [w]x + second * [w]x^2`; the
    /// closed form has `first = (1 - cos theta) / theta^2` and
    /// `second = (theta - sin theta) / theta^3`.
    FullAngle { first: T, second: T },
}

/// The 4 by 4 matrix with `r` over `0 0 0` on the left and `t` over `1` on
/// the right.
pub open spec fn homogeneous<T: Scalar>(r: Seq<Seq<T>>, t: Seq<T>) -> Seq<Seq<T>> {
    seq![
        seq![r[0][0], r[0][1], r[0][2], t[0]],
        seq![r[1][0], r[1][1], r[1][2], t[1]],
        seq![r[2][0], r[2][1], r[2][2], t[2]],
        seq![T::zero_spec(), T::zero_spec(), T::zero_spec(), T::one_spec()],
    ]
}

/// The upper left 3 by 3 block of a matrix.
pub open spec fn upper_left<T>(m: Seq<Seq<T>>) -> Seq<Seq<T>> {
    seq![
        seq![m[0][0], m[0][1], m[0][2]],
        seq![m[1][0], m[1][1], m[1][2]],
        seq![m[2][0], m[2][1], m[2][2]],
    ]
}

/// The first three entries of the fourth column of a matrix.
pub open spec fn upper_right<T>(m: Seq<Seq<T>>) -> Seq<T> {
    seq![m[0][3], m[1][3], m[2][3]]
}

/// The angular part of a twist: its first three entries.
pub open spec fn angular<T>(twist: Seq<T>) -> Seq<T> {
    seq![twist[0], twist[1], twist[2]]
}

/// The linear part of a twist: its last three entries.
pub open spec fn linear<T>(twist: Seq<T>) -> Seq<T> {
    seq![twist[3], twist[4], twist[5]]
}

/// The se(3) matrix of a twist: the skew matrix of the angular part beside
/// the linear part, over a row of zeros.
pub open spec fn hat6<T: Scalar>(twist: Seq<T>) -> Seq<Seq<T>> {
    let w = skew(angular(twist));
    seq![
        seq![w[0][0], w[0][1], w[0][2], twist[3]],
        seq![w[1][0], w[1][1], w[1][2], twist[4]],
        seq![w[2][0], w[2][1], w[2][2], twist[5]],
        seq![T::zero_spec(), T::zero_spec(), T::zero_spec(), T::zero_spec()],
    ]
}

/// The twist of an se(3) matrix.
pub open spec fn vee6<T: Scalar>(m: Seq<Seq<T>>) -> Seq<T> {
    let w = vee3(upper_left(m));
    seq![w[0], w[1], w[2], m[0][3], m[1][3], m[2][3]]
}

/// Whether the 4 by 4 matrix `m` lies in se(3): a skew-symmetric block
/// beside any column, over a row of zeros.
pub open spec fn is_se3_algebra<T: Scalar>(m: Seq<Seq<T>>) -> bool {
    &&& is_square(m, 4)
    &&& crate::util::is_skew(upper_left(m))
    &&& forall|c: int| 0 <= c < 4 ==> m[3][c] == T::zero_spec()
}

/// The adjoint matrix of the transform with rotation `r` and translation
/// `t`: `r` in both diagonal blocks, `[t]x * r` in the lower left block and
/// zeros in the upper right block.
pub open spec fn adjoint_of<T: Scalar>(r: Seq<Seq<T>>, t: Seq<T>) -> Seq<Seq<T>> {
    Seq::new(
        6,
        |i: int|
            Seq::new(
                6,
                |j: int|
                    if i < 3 {
                        if j < 3 {
                            r[i][j]
                        } else {
                            T::zero_spec()
                        }
                    } else {
                        if j < 3 {
                            mat_mul(skew(t), r)[i - 3][j]
                        } else {
                            r[i - 3][j - 3]
                        }
                    },
            ),
    )
}

/// The scale that an optional factor stands for: one where none is given.
pub open spec fn scale_of<T: Scalar>(a: Option<T>) -> T {
    match a {
        Some(s) => s,
        None => T::one_spec(),
    }
}

/// The coupling matrix of the exponential map for the angular velocity `w`.
pub open spec fn coupling_matrix<T: Scalar>(coupling: ExpCoupling<T>, w: Seq<T>) -> Seq<Seq<T>> {
    match coupling {
        ExpCoupling::ZeroAngle => mat_add(
            identity_matrix::<T>(3),
            mat_scale(T::half_spec(), zero_matrix::<T>(3)),
        ),
        ExpCoupling::SmallAngle => mat_add(
            identity_matrix::<T>(3),
            mat_scale(T::half_spec(), skew(w)),
        ),
        ExpCoupling::FullAngle { first, second } => mat_add(
            mat_add(identity_matrix::<T>(3), mat_scale(first, skew(w))),
            mat_scale(second, mat_mul(skew(w), skew(w))),
        ),
    }
}

/// The matrix of the exponential of `twist` scaled by `scale`, given the
/// rotation `r` of its angular part: `r` beside the coupling matrix applied
/// to the linear part.
pub open spec fn exp_matrix<T: Scalar>(
    twist: Seq<T>,
    scale: T,
    r: Seq<Seq<T>>,
    coupling: ExpCoupling<T>,
) -> Seq<Seq<T>> {
    homogeneous(
        r,
        mat_vec(
            coupling_matrix(coupling, vec_scale(angular(twist), scale)),
            vec_scale(linear(twist), scale),
        ),
    )
}

impl<T: Copy> Clone for ExpCoupling<T> {
    fn clone(&self) -> (res: Self)
        ensures
            res == *self,
    {
        *self
    }
}

impl<T: Scalar> Clone for Se3<T> {
    fn clone(&self) -> (res: Self)
        ensures
            res == *self,
    {
        *self
    }
}

impl<T: Scalar> Se3<T> {
    /// The matrix of the rotation part.
    pub closed spec fn rotation_matrix(&self) -> Seq<Seq<T>> {
        self.rotation@
    }

    /// The translation part.
    pub closed spec fn translation_vector(&self) -> Seq<T> {
        self.translation@
    }

    /// The transform with rotation matrix `r` and translation `t`.
    pub closed spec fn of_parts(r: Seq<Seq<T>>, t: Seq<T>) -> Se3<T> {
        Se3 { rotation: So3::of_matrix(r), translation: [t[0], t[1], t[2]] }
    }

    /// The rotation part is 3 by 3 and the translation has three entries.
    pub proof fn lemma_shape(self)
        ensures
            is_square(self.rotation_matrix(), 3),
            self.translation_vector().len() == 3,
    {
        self.rotation.lemma_view_shape();
    }

    /// A transform is the transform of its parts: the two parts tell
    /// transforms apart.
    pub proof fn lemma_of_parts(self)
        ensures
            Se3::of_parts(self.rotation_matrix(), self.translation_vector()) == self,
    {
        self.rotation.lemma_of_view();
        let other = Se3::of_parts(self.rotation_matrix(), self.translation_vector());
        assert(other.translation =~= self.translation);
    }

    /// The parts of the transform of `r` and `t` are `r` and `t`.
    pub proof fn lemma_parts_of(r: Seq<Seq<T>>, t: Seq<T>)
        requires
            is_square(r, 3),
            t.len() == 3,
        ensures
            Se3::of_parts(r, t).rotation_matrix() == r,
            Se3::of_parts(r, t).translation_vector() == t,
    {
        So3::lemma_view_of_matrix(r);
    }

    /// The transform that leaves every point where it is.
    pub fn identity() -> (res: Self)
        ensures
            res.rotation_matrix() == identity_matrix::<T>(3),
            res.translation_vector() == zero_vector::<T>(3),
    {
        let zero = T::zero();
        Se3 { rotation: So3::identity(), translation: [zero, zero, zero] }
    }

    /// Reads a transform off a homogeneous matrix: the upper left block is
    /// its rotation, the fourth column over the last row its translation.
    /// The last row is not looked at, and the block is taken as given.
    pub fn from_matrix(matrix: [[T; 4]; 4]) -> (res: Self)
        ensures
            res.rotation_matrix() == upper_left(mat_view(matrix)),
            res.translation_vector() == upper_right(mat_view(matrix)),
    {
        let rotation_matrix = [
            [matrix[0][0], matrix[0][1], matrix[0][2]],
            [matrix[1][0], matrix[1][1], matrix[1][2]],
            [matrix[2][0], matrix[2][1], matrix[2][2]],
        ];
        let translation = [matrix[0][3], matrix[1][3], matrix[2][3]];
        Se3::from_parts(So3::from_matrix(rotation_matrix), translation)
    }

    /// The se(3) matrix of a twist `[w, v]`.
    pub fn hat(twist: [T; 6]) -> (res: [[T; 4]; 4])
        ensures
            mat_view(res) == hat6(twist@),
    {
        let omega = [twist[0], twist[1], twist[2]];
        let w = skew_symmetric(&omega);
        let zero = T::zero();
        [
            [w[0][0], w[0][1], w[0][2], twist[3]],
            [w[1][0], w[1][1], w[1][2], twist[4]],
            [w[2][0], w[2][1], w[2][2], twist[5]],
            [zero, zero, zero, zero],
        ]
    }

    /// The twist of an se(3) matrix: the vector of its upper left block,
    /// then its fourth column.
    pub fn vee(matrix: [[T; 4]; 4]) -> (res: [T; 6])
        ensures
            res@ == vee6(mat_view(matrix)),
    {
        let rotation_block = [
            [matrix[0][0], matrix[0][1], matrix[0][2]],
            [matrix[1][0], matrix[1][1], matrix[1][2]],
            [matrix[2][0], matrix[2][1], matrix[2][2]],
        ];
        let omega = So3::vee(rotation_block);
        [omega[0], omega[1], omega[2], matrix[0][3], matrix[1][3], matrix[2][3]]
    }

    /// The homogeneous matrix of the exponential of `twist`, scaled by `a`
    /// where it is given.
    ///
    /// The rotation of the scaled angular part and the case of its angle are
    /// the caller's to compute; this assembles the matrix from them.
    pub fn exp(twist: [T; 6], a: Option<T>, rotation: &So3<T>, coupling: ExpCoupling<T>) -> (res: [
        [T; 4]; 4
    ])
        ensures
            mat_view(res) == exp_matrix(twist@, scale_of(a), rotation@, coupling),
    {
        let scale = match a {
            Some(s) => s,
            None => T::one(),
        };
        let omega = [twist[0].mul(scale), twist[1].mul(scale), twist[2].mul(scale)];
        let v = [twist[3].mul(scale), twist[4].mul(scale), twist[5].mul(scale)];
        assert(v@ =~= vec_scale(linear(twist@), scale));
        let eye = matrix_identity::<T, 3>();
        let v_matrix = match coupling {
            ExpCoupling::ZeroAngle => {
                let hat = matrix_zeros::<T, 3>();
                matrix_sum(&eye, &matrix_scaled(T::half(), &hat))
            },
            ExpCoupling::SmallAngle => {
                let hat = skew_symmetric(&omega);
                matrix_sum(&eye, &matrix_scaled(T::half(), &hat))
            },
            ExpCoupling::FullAngle { first, second } => {
                let hat = skew_symmetric(&omega);
                let hat_sq = matrix_product(&hat, &hat);
                matrix_sum(
                    &matrix_sum(&eye, &matrix_scaled(first, &hat)),
                    &matrix_scaled(second, &hat_sq),
                )
            },
        };
        let translated = apply_linear(&v_matrix, v);
        let r = rotation.to_matrix();
        let zero = T::zero();
        [
            [r[0][0], r[0][1], r[0][2], translated[0]],
            [r[1][0], r[1][1], r[1][2], translated[1]],
            [r[2][0], r[2][1], r[2][2], translated[2]],
            [zero, zero, zero, T::one()],
        ]
    }

    /// The transform with the given rotation and translation.
    pub fn from_parts(rotation: So3<T>, translation: [T; 3]) -> (res: Self)
        ensures
            res.rotation_matrix() == rotation@,
            res.translation_vector() == translation@,
    {
        Se3 { rotation, translation }
    }

    /// `self * other`: the transform that applies `other` first, then
    /// `self`.
    pub fn compose(&self, other: &Self) -> (res: Self)
        ensures
            res.rotation_matrix() == mat_mul(self.rotation_matrix(), other.rotation_matrix()),
            res.translation_vector() == vec_add(
                self.translation_vector(),
                mat_vec(self.rotation_matrix(), other.translation_vector()),
            ),
    {
        let new_rotation = self.rotation.compose(&other.rotation);
        let rotated = self.rotation.apply(other.translation);
        let translated = vector_sum(&self.translation, &rotated);
        Se3 { rotation: new_rotation, translation: translated }
    }

    /// The inverse transform `x -> R^T * x - R^T * t`.
    pub fn inverse(&self) -> (res: Self)
        ensures
            res.rotation_matrix() == transpose(self.rotation_matrix()),
            res.translation_vector() == vec_neg(
                mat_vec(transpose(self.rotation_matrix()), self.translation_vector()),
            ),
    {
        let inv_rotation = self.rotation.inverse();
        let rotated = inv_rotation.apply(self.translation);
        let inv_translation = vector_negation(&rotated);
        Se3 { rotation: inv_rotation, translation: inv_translation }
    }

    /// The image of `point`: rotated, then translated.
    pub fn apply(&self, point: [T; 3]) -> (res: [T; 3])
        ensures
            res@ == vec_add(mat_vec(self.rotation_matrix(), point@), self.translation_vector()),
    {
        let rotated = self.rotation.apply(point);
        vector_sum(&rotated, &self.translation)
    }

    /// The 4 by 4 homogeneous matrix of the transform.
    pub fn to_matrix(&self) -> (res: [[T; 4]; 4])
        ensures
            mat_view(res) == homogeneous(self.rotation_matrix(), self.translation_vector()),
    {
        let r = self.rotation.to_matrix();
        let t = &self.translation;
        let zero = T::zero();
        [
            [r[0][0], r[0][1], r[0][2], t[0]],
            [r[1][0], r[1][1], r[1][2], t[1]],
            [r[2][0], r[2][1], r[2][2], t[2]],
            [zero, zero, zero, T::one()],
        ]
    }

    /// The rotation part.
    pub fn rotation(&self) -> (res: &So3<T>)
        ensures
            res@ == self.rotation_matrix(),
    {
        &self.rotation
    }

    /// The translation part.
    pub fn translation(&self) -> (res: [T; 3])
        ensures
            res@ == self.translation_vector(),
    {
        self.translation
    }

    /// The 6 by 6 matrix that carries twists from the frame of the
    /// transform into its parent frame.
    pub fn adjoint(&self) -> (res: [[T; 6]; 6])
        ensures
            mat_view(res) == adjoint_of(self.rotation_matrix(), self.translation_vector()),
    {
        let r = self.rotation.to_matrix();
        let hat = skew_symmetric(&self.translation);
        let low = matrix_product(&hat, &r);
        let zero = T::zero();
        let res = [
            [r[0][0], r[0][1], r[0][2], zero, zero, zero],
            [r[1][0], r[1][1], r[1][2], zero, zero, zero],
            [r[2][0], r[2][1], r[2][2], zero, zero, zero],
            [low[0][0], low[0][1], low[0][2], r[0][0], r[0][1], r[0][2]],
            [low[1][0], low[1][1], low[1][2], r[1][0], r[1][1], r[1][2]],
            [low[2][0], low[2][1], low[2][2], r[2][0], r[2][1], r[2][2]],
        ];
        proof {
            assert(mat_view(res) =~~= adjoint_of(
                self.rotation_matrix(),
                self.translation_vector(),
            ));
        }
        res
    }
}

impl<T: Scalar> LieGroup<T, 4> for Se3<T> {
    open spec fn matrix_spec(&self) -> Seq<Seq<T>> {
        homogeneous(self.rotation_matrix(), self.translation_vector())
    }

    open spec fn compose_spec(&self, other: &Self) -> Seq<Seq<T>> {
        homogeneous(
            mat_mul(self.rotation_matrix(), other.rotation_matrix()),
            vec_add(
                self.translation_vector(),
                mat_vec(self.rotation_matrix(), other.translation_vector()),
            ),
        )
    }

    open spec fn inverse_spec(&self) -> Seq<Seq<T>> {
        homogeneous(
            transpose(self.rotation_matrix()),
            vec_neg(mat_vec(transpose(self.rotation_matrix()), self.translation_vector())),
        )
    }

    fn identity() -> (res: Self)
        ensures
            res.rotation_matrix() == identity_matrix::<T>(3),
            res.translation_vector() == zero_vector::<T>(3),
    {
        let res = Se3::identity();
        assert(res.matrix_spec() =~~= identity_matrix::<T>(4));
        res
    }

    fn compose(&self, other: &Self) -> (res: Self)
        ensures
            res.rotation_matrix() == mat_mul(self.rotation_matrix(), other.rotation_matrix()),
            res.translation_vector() == vec_add(
                self.translation_vector(),
                mat_vec(self.rotation_matrix(), other.translation_vector()),
            ),
    {
        Se3::compose(self, other)
    }

    fn inverse(&self) -> (res: Self)
        ensures
            res.rotation_matrix() == transpose(self.rotation_matrix()),
            res.translation_vector() == vec_neg(
                mat_vec(transpose(self.rotation_matrix()), self.translation_vector()),
            ),
    {
        Se3::inverse(self)
    }

    fn as_matrix(&self) -> (res: [[T; 4]; 4])
        ensures
            mat_view(res) == homogeneous(self.rotation_matrix(), self.translation_vector()),
    {
        self.to_matrix()
    }
}

impl<T: Scalar> HasAdjoint<T, 6> for Se3<T> {
    open spec fn adjoint_spec(&self) -> Seq<Seq<T>> {
        adjoint_of(self.rotation_matrix(), self.translation_vector())
    }

    fn adjoint_matrix(&self) -> (res: [[T; 6]; 6])
        ensures
            mat_view(res) == adjoint_of(self.rotation_matrix(), self.translation_vector()),
    {
        self.adjoint()
    }
}

impl<T: Scalar> Mul for Se3<T> {
    type Output = Se3<T>;

    /// `self * rhs` is `self.compose(&rhs)`.
    fn mul(self, rhs: Se3<T>) -> (res: Se3<T>)
        ensures
            res.rotation_matrix() == mat_mul(self.rotation_matrix(), rhs.rotation_matrix()),
            res.translation_vector() == vec_add(
                self.translation_vector(),
                mat_vec(self.rotation_matrix(), rhs.translation_vector()),
            ),
    {
        let res = Se3::compose(&self, &rhs);
        proof {
            res.lemma_of_parts();
        }
        res
    }
}

impl<T: Scalar> MulSpecImpl for Se3<T> {
    open spec fn obeys_mul_spec() -> bool {
        true
    }

    open spec fn mul_req(self, rhs: Se3<T>) -> bool {
        true
    }

    open spec fn mul_spec(self, rhs: Se3<T>) -> Se3<T> {
        Se3::of_parts(
            mat_mul(self.rotation_matrix(), rhs.rotation_matrix()),
            vec_add(
                self.translation_vector(),
                mat_vec(self.rotation_matrix(), rhs.translation_vector()),
            ),
        )
    }
}

} // verus!
