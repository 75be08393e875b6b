//! Composite motion transformations: a base matrix together with the
//! tangent vectors of its time derivatives, and the block matrix that holds
//! the transformation and its derivatives up to a requested order.

use crate::lie::{apply_linear, HasAdjoint};
use crate::matrix::{
    identity_matrix, is_square, mat_add, mat_div, mat_mul, mat_vec, mat_view, matrix_identity,
    matrix_product, matrix_quotient, matrix_sum, matrix_zeros, rows_view, vec_add, vec_div,
    vecs_view, vector_quotient, vector_sum, zero_matrix, zero_vector,
};
use crate::scalar::Scalar;
use crate::se3::{adjoint_of, angular, linear, Se3};
use crate::so3::So3;
use crate::util::{skew, skew_symmetric};
use core::ops::Mul;
use vstd::prelude::*;
use vstd::std_specs::ops::MulSpecImpl;

verus! {

/// Why a block matrix could not be built.
#[derive(Debug, Clone, Copy, PartialEq, Eq)]
pub enum CmtmError {
    /// The requested order is zero.
    ZeroOrder,
    /// The requested order is larger than the derivatives at hand allow.
    OrderExceedsDerivatives,
    /// The dimension is neither 3 nor 6.
    UnsupportedDimension,
}

impl CmtmError {
    /// What went wrong, in words.
    pub fn message(&self) -> (res: &'static str)
        ensures
            res@ == match self {
                CmtmError::ZeroOrder => "Output order must be positive"@,
                CmtmError::OrderExceedsDerivatives => "Output order exceeds available derivatives"@,
                CmtmError::UnsupportedDimension => "hat_adj not implemented for this dimension"@,
            },
    {
        match self {
            CmtmError::ZeroOrder => "Output order must be positive",
            CmtmError::OrderExceedsDerivatives => "Output order exceeds available derivatives",
            CmtmError::UnsupportedDimension => "hat_adj not implemented for this dimension",
        }
    }
}

/// A composite motion transformation of dimension `DIM`: 3 for rotations,
/// 6 for rigid transforms.
///
/// `derivatives[i]` is the tangent vector of the derivative of order `i + 1`.
#[derive(Debug, PartialEq)]
pub struct GenericCmtm<T: Scalar, const DIM: usize> {
    matrix: [[T; DIM]; DIM],
    derivatives: Vec<[T; DIM]>,
}

/// The transformation of twists, for rigid transforms.
pub type SpatialCmtm<T> = GenericCmtm<T, 6>;

/// The transformation of angular velocities, for rotations.
pub type RotationalCmtm<T> = GenericCmtm<T, 3>;

/// Another name for [`SpatialCmtm`].
pub type Cmtm6<T> = GenericCmtm<T, 6>;

/// Another name for [`SpatialCmtm`].
pub type Cmtm<T> = GenericCmtm<T, 6>;

/// Whether a block matrix of `len + 1` blocks of side `dim` has a side that
/// a `usize` can hold.
pub open spec fn fits_side(len: nat, dim: nat) -> bool {
    &&& len + 1 <= usize::MAX
    &&& (len + 1) * dim <= usize::MAX
}

/// `n!` in scalars: `((1 * 1) * 2) * ... * n`.
pub open spec fn factorial_spec<T: Scalar>(n: nat) -> T
    decreases n,
{
    if n == 0 {
        T::one_spec()
    } else {
        factorial_spec::<T>((n - 1) as nat).mul_spec(T::from_count_spec(n as usize))
    }
}

/// The 6 by 6 matrix of a twist `[w, v]`: `[w]x` in both diagonal blocks,
/// `[v]x` in the lower left block and zeros in the upper right block.
pub open spec fn spatial_skew<T: Scalar>(twist: Seq<T>) -> Seq<Seq<T>> {
    Seq::new(
        6,
        |i: int|
            Seq::new(
                6,
                |j: int|
                    if i < 3 {
                        if j < 3 {
                            skew(angular(twist))[i][j]
                        } else {
                            T::zero_spec()
                        }
                    } else {
                        if j < 3 {
                            skew(linear(twist))[i - 3][j]
                        } else {
                            skew(angular(twist))[i - 3][j - 3]
                        }
                    },
            ),
    )
}

/// The matrix of a tangent vector: its skew matrix in dimension 3, its
/// spatial skew matrix in dimension 6.
pub open spec fn hat_adj_spec<T: Scalar>(v: Seq<T>) -> Seq<Seq<T>> {
    if v.len() == 3 {
        skew(v)
    } else {
        spatial_skew(v)
    }
}

/// The sum `M(p - 1) * H(0) + M(p - 2) * H(1) + ... + M(p - n) * H(n - 1)`,
/// added up from the zero matrix, where `H(i)` is the matrix of
/// `derivs[i] / i!`.
pub open spec fn elem_sum<T: Scalar>(base: Seq<Seq<T>>, derivs: Seq<Seq<T>>, p: nat, n: nat) -> Seq<
    Seq<T>,
>
    decreases p, n,
{
    if n == 0 || n > p {
        zero_matrix::<T>(base.len())
    } else {
        mat_add(
            elem_sum(base, derivs, p, (n - 1) as nat),
            mat_mul(
                mat_elem_spec(base, derivs, (p - n) as nat),
                hat_adj_spec(vec_div(derivs[n - 1], factorial_spec::<T>((n - 1) as nat))),
            ),
        )
    }
}

/// The element matrix `M(p)`: the coefficient of order `p` of the
/// transformation. `M(0)` is the base, and
/// `M(p) = (M(p - 1) * H(0) + ... + M(0) * H(p - 1)) / p`.
pub open spec fn mat_elem_spec<T: Scalar>(base: Seq<Seq<T>>, derivs: Seq<Seq<T>>, p: nat) -> Seq<
    Seq<T>,
>
    decreases p, p + 1,
{
    if p == 0 {
        base
    } else {
        mat_div(elem_sum(base, derivs, p, p), T::from_count_spec(p as usize))
    }
}

/// Entry `(row, col)` of the block matrix: it lies in block
/// `(row / dim, col / dim)`, which is `M(row / dim - col / dim)` on and
/// under the diagonal and zero over it.
pub open spec fn block_entry<T: Scalar>(
    base: Seq<Seq<T>>,
    derivs: Seq<Seq<T>>,
    row: int,
    col: int,
) -> T {
    let dim = base.len() as int;
    if col / dim <= row / dim {
        mat_elem_spec(base, derivs, (row / dim - col / dim) as nat)[row % dim][col % dim]
    } else {
        T::zero_spec()
    }
}

/// The block matrix of `order` by `order` blocks: block `(j, j - i)` is
/// `M(i)`, and the blocks over the diagonal are zero.
pub open spec fn block_matrix_spec<T: Scalar>(
    base: Seq<Seq<T>>,
    derivs: Seq<Seq<T>>,
    order: nat,
) -> Seq<Seq<T>> {
    Seq::new(
        base.len() * order,
        |row: int|
            Seq::new(base.len() * order, |col: int| block_entry(base, derivs, row, col)),
    )
}

/// Entry `i` of a list of vectors, or the zero vector where the list ends
/// before `i`.
pub open spec fn entry_or_zero<T: Scalar>(vs: Seq<Seq<T>>, i: int, dim: nat) -> Seq<T> {
    if 0 <= i < vs.len() {
        vs[i]
    } else {
        zero_vector::<T>(dim)
    }
}

/// The derivatives of a composition: the sums of the derivatives of equal
/// order, a missing derivative counting as zero.
pub open spec fn compose_derivs<T: Scalar>(a: Seq<Seq<T>>, b: Seq<Seq<T>>, dim: nat) -> Seq<
    Seq<T>,
> {
    Seq::new(
        if a.len() >= b.len() {
            a.len()
        } else {
            b.len()
        },
        |i: int| vec_add(entry_or_zero(a, i, dim), entry_or_zero(b, i, dim)),
    )
}

/// The order that a request resolves to, for a transformation of order
/// `available`: the order itself where none is requested, and an error for
/// a request of zero or of more than `available`.
pub open spec fn resolve_order(available: nat, requested: Option<usize>) -> Result<
    usize,
    CmtmError,
> {
    match requested {
        None => Ok(available as usize),
        Some(o) => if o == 0 {
            Err(CmtmError::ZeroOrder)
        } else if o > available {
            Err(CmtmError::OrderExceedsDerivatives)
        } else {
            Ok(o)
        },
    }
}

/// Writes the 3 by 3 `block` into `m` with its upper left corner at
/// `(row, col)`.
fn set_block<T: Scalar, const DIM: usize>(
    m: &mut [[T; DIM]; DIM],
    row: usize,
    col: usize,
    block: &[[T; 3]; 3],
)
    requires
        row + 3 <= DIM,
        col + 3 <= DIM,
    ensures
        forall|i: int, j: int|
            0 <= i < DIM && 0 <= j < DIM ==> final(m)[i][j] == if row <= i < row + 3 && col <= j
                < col + 3 {
                block[i - row][j - col]
            } else {
                old(m)[i][j]
            },
{
    let mut r: usize = 0;
    while r < 3
        invariant
            r <= 3,
            row + 3 <= DIM,
            col + 3 <= DIM,
            forall|i: int, j: int|
                0 <= i < DIM && 0 <= j < DIM ==> m[i][j] == if row <= i < row + r && col <= j < col
                    + 3 {
                    block[i - row][j - col]
                } else {
                    old(m)[i][j]
                },
        decreases 3 - r,
    {
        let mut c: usize = 0;
        while c < 3
            invariant
                c <= 3,
                r < 3,
                row + 3 <= DIM,
                col + 3 <= DIM,
                forall|i: int, j: int|
                    0 <= i < DIM && 0 <= j < DIM ==> m[i][j] == if (row <= i < row + r && col <= j
                        < col + 3) || (i == row + r && col <= j < col + c) {
                        block[i - row][j - col]
                    } else {
                        old(m)[i][j]
                    },
            decreases 3 - c,
        {
            m[row + r][col + c] = block[r][c];
            c = c + 1;
        }
        r = r + 1;
    }
}

impl<T: Scalar, const DIM: usize> GenericCmtm<T, DIM> {
    #[verifier::type_invariant]
    spec fn well_formed(self) -> bool {
        fits_side(self.derivatives@.len(), DIM as nat)
    }

    /// Whether a transformation can hold `count` derivatives: whether the
    /// side of its largest block matrix fits a `usize`.
    pub fn can_hold(count: usize) -> (res: bool)
        ensures
            res == fits_side(count as nat, DIM as nat),
    {
        match count.checked_add(1) {
            None => false,
            Some(blocks) => blocks.checked_mul(DIM).is_some(),
        }
    }

    /// The base matrix, row by row.
    pub closed spec fn base(&self) -> Seq<Seq<T>> {
        mat_view(self.matrix)
    }

    /// The derivative vectors, from the first derivative on.
    pub closed spec fn derivs(&self) -> Seq<Seq<T>> {
        vecs_view(self.derivatives@)
    }

    /// The order: one more than the number of derivatives.
    pub open spec fn order_spec(&self) -> nat {
        self.derivs().len() + 1
    }

    /// The base is `DIM` by `DIM` and each derivative has `DIM` entries.
    pub proof fn lemma_shape(&self)
        ensures
            is_square(self.base(), DIM as nat),
            forall|i: int|
                0 <= i < self.derivs().len() ==> (#[trigger] self.derivs()[i]).len() == DIM,
    {
    }

    /// The transformation that leaves tangent vectors unchanged, of order 1.
    pub fn identity() -> (res: Self)
        ensures
            res.base() == identity_matrix::<T>(DIM as nat),
            res.derivs() == Seq::<Seq<T>>::empty(),
    {
        assert(fits_side(0, DIM as nat)) by (nonlinear_arith);
        GenericCmtm { matrix: matrix_identity(), derivatives: Vec::new() }
    }

    /// The transformation with the given base matrix and derivative vectors,
    /// of order `derivatives.len() + 1`.
    pub fn with_derivatives(matrix: [[T; DIM]; DIM], derivatives: Vec<[T; DIM]>) -> (res: Self)
        requires
            fits_side(derivatives@.len(), DIM as nat),
        ensures
            res.base() == mat_view(matrix),
            res.derivs() == vecs_view(derivatives@),
    {
        GenericCmtm { matrix, derivatives }
    }

    /// The base matrix.
    pub fn to_matrix(&self) -> (res: [[T; DIM]; DIM])
        ensures
            mat_view(res) == self.base(),
    {
        self.matrix
    }

    /// The base matrix, borrowed.
    pub fn matrix(&self) -> (res: &[[T; DIM]; DIM])
        ensures
            mat_view(*res) == self.base(),
    {
        &self.matrix
    }

    /// The highest order of block matrix that can be built: 1 where there
    /// are no derivatives.
    pub fn order(&self) -> (res: usize)
        ensures
            res == self.order_spec(),
    {
        proof {
            use_type_invariant(self);
        }
        self.derivatives.len() + 1
    }

    /// Resolves a requested order: the order of `self` where none is
    /// requested, the request where it is positive and within that order.
    pub fn check_output_order(&self, output_order: Option<usize>) -> (res: Result<usize, CmtmError>)
        ensures
            res == resolve_order(self.order_spec(), output_order),
    {
        let available = self.order();
        match output_order {
            Some(o) => {
                if o == 0 {
                    Err(CmtmError::ZeroOrder)
                } else if o > available {
                    Err(CmtmError::OrderExceedsDerivatives)
                } else {
                    Ok(o)
                }
            },
            None => Ok(available),
        }
    }

    /// `n!` as a scalar.
    pub fn factorial(n: usize) -> (res: T)
        ensures
            res == factorial_spec::<T>(n as nat),
    {
        let mut acc: T = T::one();
        let mut v: usize = 0;
        while v < n
            invariant
                v <= n,
                acc == factorial_spec::<T>(v as nat),
            decreases n - v,
        {
            v = v + 1;
            acc = acc.mul(T::from_count(v));
        }
        acc
    }

    /// The matrix of the tangent vector `vec`.
    pub fn hat_adj(vec: &[T; DIM]) -> (res: [[T; DIM]; DIM])
        requires
            DIM == 3 || DIM == 6,
        ensures
            mat_view(res) == hat_adj_spec(vec@),
    {
        let mut data = matrix_zeros::<T, DIM>();
        assert(forall|i: int, j: int|
            0 <= i < DIM && 0 <= j < DIM ==> data[i][j] == zero_matrix::<T>(DIM as nat)[i][j]);
        let omega = [vec[0], vec[1], vec[2]];
        let omega_hat = skew_symmetric(&omega);
        if DIM == 3 {
            set_block(&mut data, 0, 0, &omega_hat);
            assert(mat_view(data) =~~= skew(vec@));
        } else {
            let v = [vec[3], vec[4], vec[5]];
            let v_hat = skew_symmetric(&v);
            set_block(&mut data, 0, 0, &omega_hat);
            set_block(&mut data, 3, 3, &omega_hat);
            set_block(&mut data, 3, 0, &v_hat);
            assert(mat_view(data) =~~= spatial_skew(vec@));
        }
        data
    }

    /// The element matrix `M(p)`, by the recurrence itself.
    pub fn mat_elem(&self, p: usize) -> (res: [[T; DIM]; DIM])
        requires
            DIM == 3 || DIM == 6,
            p < self.order_spec(),
        ensures
            mat_view(res) == mat_elem_spec(self.base(), self.derivs(), p as nat),
        decreases p,
    {
        if p == 0 {
            return self.matrix;
        }
        let mut mat = matrix_zeros::<T, DIM>();
        let mut i: usize = 0;
        while i < p
            invariant
                DIM == 3 || DIM == 6,
                i <= p,
                p < self.order_spec(),
                mat_view(mat) == elem_sum(self.base(), self.derivs(), p as nat, i as nat),
            decreases p - i,
        {
            let prev = self.mat_elem(p - i - 1);
            let scaled = vector_quotient(&self.derivatives[i], Self::factorial(i));
            let hat = Self::hat_adj(&scaled);
            mat = matrix_sum(&mat, &matrix_product(&prev, &hat));
            i = i + 1;
        }
        matrix_quotient(&mat, T::from_count(p))
    }

    /// The element matrices `M(0)`, ..., `M(count - 1)`, each computed once
    /// from those before it.
    pub fn mat_elems(&self, count: usize) -> (res: Vec<[[T; DIM]; DIM]>)
        requires
            DIM == 3 || DIM == 6,
            count <= self.order_spec(),
        ensures
            res@.len() == count,
            forall|q: int|
                0 <= q < count ==> mat_view(#[trigger] res@[q]) == mat_elem_spec(
                    self.base(),
                    self.derivs(),
                    q as nat,
                ),
    {
        let mut table: Vec<[[T; DIM]; DIM]> = Vec::new();
        let mut p: usize = 0;
        while p < count
            invariant
                DIM == 3 || DIM == 6,
                p <= count,
                count <= self.order_spec(),
                table@.len() == p,
                forall|q: int|
                    0 <= q < p ==> mat_view(#[trigger] table@[q]) == mat_elem_spec(
                        self.base(),
                        self.derivs(),
                        q as nat,
                    ),
            decreases count - p,
        {
            if p == 0 {
                table.push(self.matrix);
            } else {
                let mut mat = matrix_zeros::<T, DIM>();
                let mut i: usize = 0;
                while i < p
                    invariant
                        DIM == 3 || DIM == 6,
                        i <= p,
                        0 < p < self.order_spec(),
                        table@.len() == p,
                        forall|q: int|
                            0 <= q < p ==> mat_view(#[trigger] table@[q]) == mat_elem_spec(
                                self.base(),
                                self.derivs(),
                                q as nat,
                            ),
                        mat_view(mat) == elem_sum(self.base(), self.derivs(), p as nat, i as nat),
                    decreases p - i,
                {
                    let scaled = vector_quotient(&self.derivatives[i], Self::factorial(i));
                    let hat = Self::hat_adj(&scaled);
                    mat = matrix_sum(&mat, &matrix_product(&table[p - i - 1], &hat));
                    i = i + 1;
                }
                table.push(matrix_quotient(&mat, T::from_count(p)));
            }
            p = p + 1;
        }
        table
    }

    /// The block matrix of the requested order, or of the order of `self`
    /// where none is requested.
    pub fn build_block_matrix(&self, output_order: Option<usize>) -> (res: Result<
        Vec<Vec<T>>,
        CmtmError,
    >)
        ensures
            match resolve_order(self.order_spec(), output_order) {
                Err(e) => res == Err::<Vec<Vec<T>>, CmtmError>(e),
                Ok(k) => if DIM == 3 || DIM == 6 {
                    res is Ok && rows_view(res->Ok_0@) == block_matrix_spec(
                        self.base(),
                        self.derivs(),
                        k as nat,
                    )
                } else {
                    res == Err::<Vec<Vec<T>>, CmtmError>(CmtmError::UnsupportedDimension)
                },
            },
    {
        let order = match self.check_output_order(output_order) {
            Ok(k) => k,
            Err(e) => {
                return Err(e);
            },
        };
        if DIM != 3 && DIM != 6 {
            return Err(CmtmError::UnsupportedDimension);
        }
        proof {
            use_type_invariant(self);
            assert(DIM * order <= (self.derivs().len() + 1) * DIM) by (nonlinear_arith)
                requires
                    order <= self.derivs().len() + 1,
            ;
        }
        let size: usize = DIM * order;
        let zero = T::zero();
        let table = self.mat_elems(order);
        let mut rows: Vec<Vec<T>> = Vec::new();
        let mut row: usize = 0;
        while row < size
            invariant
                DIM == 3 || DIM == 6,
                row <= size,
                size == DIM * order,
                zero == T::zero_spec(),
                table@.len() == order,
                forall|q: int|
                    0 <= q < order ==> mat_view(#[trigger] table@[q]) == mat_elem_spec(
                        self.base(),
                        self.derivs(),
                        q as nat,
                    ),
                rows@.len() == row,
                forall|r: int|
                    0 <= r < row ==> (#[trigger] rows@[r])@ == block_matrix_spec(
                        self.base(),
                        self.derivs(),
                        order as nat,
                    )[r],
            decreases size - row,
        {
            let mut line: Vec<T> = Vec::new();
            let mut col: usize = 0;
            while col < size
                invariant
                    DIM == 3 || DIM == 6,
                    row < size,
                    col <= size,
                    size == DIM * order,
                    zero == T::zero_spec(),
                    table@.len() == order,
                    forall|q: int|
                        0 <= q < order ==> mat_view(#[trigger] table@[q]) == mat_elem_spec(
                            self.base(),
                            self.derivs(),
                            q as nat,
                        ),
                    line@.len() == col,
                    forall|c: int|
                        0 <= c < col ==> line@[c] == block_entry(
                            self.base(),
                            self.derivs(),
                            row as int,
                            c,
                        ),
                decreases size - col,
            {
                let block_row = row / DIM;
                let block_col = col / DIM;
                let entry = if block_col <= block_row {
                    table[block_row - block_col][row % DIM][col % DIM]
                } else {
                    zero
                };
                line.push(entry);
                col = col + 1;
            }
            rows.push(line);
            row = row + 1;
        }
        Ok(rows)
    }

    /// The composition: the product of the base matrices, and the sums of
    /// the derivatives of equal order. A side that has fewer derivatives
    /// counts as having zeros there, so the order of the result is the
    /// larger of the two orders.
    pub fn compose(&self, other: &Self) -> (res: Self)
        ensures
            res.base() == mat_mul(self.base(), other.base()),
            res.derivs() == compose_derivs(self.derivs(), other.derivs(), DIM as nat),
    {
        proof {
            use_type_invariant(self);
            use_type_invariant(other);
        }
        let matrix = matrix_product(&self.matrix, &other.matrix);
        let n_left = self.derivatives.len();
        let n_right = other.derivatives.len();
        let max_order = if n_left >= n_right {
            n_left
        } else {
            n_right
        };
        let zeros: [T; DIM] = [T::zero();DIM];
        let mut derivatives: Vec<[T; DIM]> = Vec::new();
        let mut i: usize = 0;
        while i < max_order
            invariant
                i <= max_order,
                n_left == self.derivatives@.len(),
                n_right == other.derivatives@.len(),
                zeros@ == zero_vector::<T>(DIM as nat),
                derivatives@.len() == i,
                forall|k: int|
                    0 <= k < i ==> (#[trigger] derivatives@[k])@ == vec_add(
                        entry_or_zero(self.derivs(), k, DIM as nat),
                        entry_or_zero(other.derivs(), k, DIM as nat),
                    ),
            decreases max_order - i,
        {
            let left = if i < n_left {
                self.derivatives[i]
            } else {
                zeros
            };
            let right = if i < n_right {
                other.derivatives[i]
            } else {
                zeros
            };
            derivatives.push(vector_sum(&left, &right));
            i = i + 1;
        }
        GenericCmtm { matrix, derivatives }
    }
}

impl<T: Scalar, const DIM: usize> Clone for GenericCmtm<T, DIM> {
    fn clone(&self) -> (res: Self)
        ensures
            res.base() == self.base(),
            res.derivs() == self.derivs(),
    {
        proof {
            use_type_invariant(self);
        }
        let mut derivatives: Vec<[T; DIM]> = Vec::new();
        let mut i: usize = 0;
        while i < self.derivatives.len()
            invariant
                i <= self.derivatives@.len(),
                derivatives@.len() == i,
                forall|k: int| 0 <= k < i ==> derivatives@[k] == self.derivatives@[k],
            decreases self.derivatives@.len() - i,
        {
            derivatives.push(self.derivatives[i]);
            i = i + 1;
        }
        GenericCmtm { matrix: self.matrix, derivatives }
    }
}

impl<T: Scalar> GenericCmtm<T, 3> {
    /// The transformation of angular velocities by `rotation`, of order 1.
    pub fn from_so3(rotation: &So3<T>) -> (res: Self)
        ensures
            res.base() == rotation@,
            res.derivs() == Seq::<Seq<T>>::empty(),
    {
        let matrix = rotation.to_matrix();
        GenericCmtm { matrix, derivatives: Vec::new() }
    }

    /// The transformation of angular velocities by `rotation`, with the
    /// given derivative vectors.
    pub fn from_so3_with_derivatives(rotation: &So3<T>, derivatives: Vec<[T; 3]>) -> (res: Self)
        requires
            fits_side(derivatives@.len(), 3),
        ensures
            res.base() == rotation@,
            res.derivs() == vecs_view(derivatives@),
    {
        let matrix = rotation.to_matrix();
        Self::with_derivatives(matrix, derivatives)
    }

    /// The image of the angular velocity `omega` under the base matrix; the
    /// derivatives play no part.
    pub fn apply_omega(&self, omega: [T; 3]) -> (res: [T; 3])
        ensures
            res@ == mat_vec(self.base(), omega@),
    {
        apply_linear(&self.matrix, omega)
    }

    /// The block matrix of the requested order, of side `3 * order`; of the
    /// order of `self` where none is requested.
    ///
    /// A request of zero, or of more than the order of `self`, is an error.
    pub fn to_block_matrix(&self, output_order: Option<usize>) -> (res: Result<
        Vec<Vec<T>>,
        CmtmError,
    >)
        ensures
            match resolve_order(self.order_spec(), output_order) {
                Err(e) => res == Err::<Vec<Vec<T>>, CmtmError>(e),
                Ok(k) => res is Ok && rows_view(res->Ok_0@) == block_matrix_spec(
                    self.base(),
                    self.derivs(),
                    k as nat,
                ),
            },
    {
        self.build_block_matrix(output_order)
    }
}

impl<T: Scalar> GenericCmtm<T, 6> {
    /// The transformation of twists by `transform`, of order 1: its base is
    /// the adjoint matrix of the transform.
    pub fn from_se3(transform: &Se3<T>) -> (res: Self)
        ensures
            res.base() == adjoint_of(transform.rotation_matrix(), transform.translation_vector()),
            res.derivs() == Seq::<Seq<T>>::empty(),
    {
        GenericCmtm { matrix: transform.adjoint_matrix(), derivatives: Vec::new() }
    }

    /// The transformation of twists by `transform`, with the given
    /// derivative vectors.
    pub fn from_se3_with_derivatives(transform: &Se3<T>, derivatives: Vec<[T; 6]>) -> (res: Self)
        requires
            fits_side(derivatives@.len(), 6),
        ensures
            res.base() == adjoint_of(transform.rotation_matrix(), transform.translation_vector()),
            res.derivs() == vecs_view(derivatives@),
    {
        let matrix = transform.adjoint_matrix();
        Self::with_derivatives(matrix, derivatives)
    }

    /// The image of the twist `[w, v]` under the base matrix; the
    /// derivatives play no part.
    pub fn apply_twist(&self, twist: [T; 6]) -> (res: [T; 6])
        ensures
            res@ == mat_vec(self.base(), twist@),
    {
        apply_linear(&self.matrix, twist)
    }

    /// The block matrix of the requested order, of side `6 * order`; of the
    /// order of `self` where none is requested.
    ///
    /// A request of zero, or of more than the order of `self`, is an error.
    pub fn to_block_matrix(&self, output_order: Option<usize>) -> (res: Result<
        Vec<Vec<T>>,
        CmtmError,
    >)
        ensures
            match resolve_order(self.order_spec(), output_order) {
                Err(e) => res == Err::<Vec<Vec<T>>, CmtmError>(e),
                Ok(k) => res is Ok && rows_view(res->Ok_0@) == block_matrix_spec(
                    self.base(),
                    self.derivs(),
                    k as nat,
                ),
            },
    {
        self.build_block_matrix(output_order)
    }
}

impl<T: Scalar, const DIM: usize> Mul<GenericCmtm<T, DIM>> for GenericCmtm<T, DIM> {
    type Output = GenericCmtm<T, DIM>;

    /// `self * rhs` is `self.compose(&rhs)`.
    fn mul(self, rhs: GenericCmtm<T, DIM>) -> (res: GenericCmtm<T, DIM>)
        ensures
            res.base() == mat_mul(self.base(), rhs.base()),
            res.derivs() == compose_derivs(self.derivs(), rhs.derivs(), DIM as nat),
    {
        self.compose(&rhs)
    }
}

impl<T: Scalar, const DIM: usize> MulSpecImpl<GenericCmtm<T, DIM>> for GenericCmtm<T, DIM> {
    /// The product is specified by its base and its derivatives, not as a
    /// value.
    open spec fn obeys_mul_spec() -> bool {
        false
    }

    open spec fn mul_req(self, rhs: GenericCmtm<T, DIM>) -> bool {
        true
    }

    open spec fn mul_spec(self, rhs: GenericCmtm<T, DIM>) -> GenericCmtm<T, DIM> {
        arbitrary()
    }
}

impl<'a, T: Scalar, const DIM: usize> Mul<&'a GenericCmtm<T, DIM>> for GenericCmtm<T, DIM> {
    type Output = GenericCmtm<T, DIM>;

    /// `self * rhs` is `self.compose(&rhs)`.
    fn mul(self, rhs: &'a GenericCmtm<T, DIM>) -> (res: GenericCmtm<T, DIM>)
        ensures
            res.base() == mat_mul(self.base(), rhs.base()),
            res.derivs() == compose_derivs(self.derivs(), rhs.derivs(), DIM as nat),
    {
        self.compose(rhs)
    }
}

impl<'a, T: Scalar, const DIM: usize> MulSpecImpl<&'a GenericCmtm<T, DIM>> for GenericCmtm<T, DIM> {
    /// The product is specified by its base and its derivatives, not as a
    /// value.
    open spec fn obeys_mul_spec() -> bool {
        false
    }

    open spec fn mul_req(self, rhs: &'a GenericCmtm<T, DIM>) -> bool {
        true
    }

    open spec fn mul_spec(self, rhs: &'a GenericCmtm<T, DIM>) -> GenericCmtm<T, DIM> {
        arbitrary()
    }
}

impl<'a, T: Scalar, const DIM: usize> Mul<GenericCmtm<T, DIM>> for &'a GenericCmtm<T, DIM> {
    type Output = GenericCmtm<T, DIM>;

    /// `self * rhs` is `self.compose(&rhs)`.
    fn mul(self, rhs: GenericCmtm<T, DIM>) -> (res: GenericCmtm<T, DIM>)
        ensures
            res.base() == mat_mul(self.base(), rhs.base()),
            res.derivs() == compose_derivs(self.derivs(), rhs.derivs(), DIM as nat),
    {
        self.compose(&rhs)
    }
}

impl<'a, T: Scalar, const DIM: usize> MulSpecImpl<GenericCmtm<T, DIM>> for &'a GenericCmtm<T, DIM> {
    /// The product is specified by its base and its derivatives, not as a
    /// value.
    open spec fn obeys_mul_spec() -> bool {
        false
    }

    open spec fn mul_req(self, rhs: GenericCmtm<T, DIM>) -> bool {
        true
    }

    open spec fn mul_spec(self, rhs: GenericCmtm<T, DIM>) -> GenericCmtm<T, DIM> {
        arbitrary()
    }
}

impl<'a, 'b, T: Scalar, const DIM: usize> Mul<&'a GenericCmtm<T, DIM>> for &'b GenericCmtm<T, DIM> {
    type Output = GenericCmtm<T, DIM>;

    /// `self * rhs` is `self.compose(&rhs)`.
    fn mul(self, rhs: &'a GenericCmtm<T, DIM>) -> (res: GenericCmtm<T, DIM>)
        ensures
            res.base() == mat_mul(self.base(), rhs.base()),
            res.derivs() == compose_derivs(self.derivs(), rhs.derivs(), DIM as nat),
    {
        self.compose(rhs)
    }
}

impl<'a, 'b, T: Scalar, const DIM: usize> MulSpecImpl<&'a GenericCmtm<T, DIM>>
    for &'b GenericCmtm<T, DIM> {
    /// The product is specified by its base and its derivatives, not as a
    /// value.
    open spec fn obeys_mul_spec() -> bool {
        false
    }

    open spec fn mul_req(self, rhs: &'a GenericCmtm<T, DIM>) -> bool {
        true
    }

    open spec fn mul_spec(self, rhs: &'a GenericCmtm<T, DIM>) -> GenericCmtm<T, DIM> {
        arbitrary()
    }
}

} // verus!
