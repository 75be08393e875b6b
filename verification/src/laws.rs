//! The laws of the motion groups, for exact scalars.
//!
//! Each law is stated over the models that the operations' contracts use,
//! so it holds of the values that the operations return.

use crate::algebra::{
    exact_matrix, exact_vector, lemma_identity_mat_mul, lemma_identity_mat_vec,
    lemma_mat_add_commutes, lemma_mat_div_one, lemma_mat_mul_exact, lemma_mat_mul_associates,
    lemma_mat_mul_identity, lemma_mat_vec_associates, lemma_mat_vec_distributes,
    lemma_mat_vec_negates, lemma_mat_vec_zero, lemma_vec_add_associates, lemma_vec_add_negation,
    lemma_vec_add_zero, lemma_vec_div_one, lemma_zero_mat_add,
};
use crate::cmtm::{
    block_matrix_spec, compose_derivs, elem_sum, factorial_spec, hat_adj_spec, mat_elem_spec,
    GenericCmtm,
};
use crate::lie::{HasAdjoint, LieGroup};
use crate::matrix::{
    column, dot_terms, identity_matrix, is_square, mat_add, mat_div, mat_mul, mat_vec, transpose,
    vec_add, vec_neg, zero_matrix, zero_vector,
};
use crate::ring::{
    lemma_difference_of_products, lemma_half_of_difference, lemma_mul_zero, lemma_one_mul,
    lemma_zero_add, lemma_zero_mul,
};
use crate::sums::{lemma_sum_congruence, lemma_sum_exact, lemma_sum_of_zeros, sum};
use crate::scalar::{ExactScalar, Scalar};
use crate::se3::{adjoint_of, hat6, is_se3_algebra, vee6, Se3};
use crate::so3::{vee3, So3};
use crate::util::{cross, is_skew, skew};
use vstd::prelude::*;
use vstd::std_specs::ops::MulSpec;

verus! {

/// Whether the 3 by 3 matrix `m` is orthonormal: its transpose is its
/// inverse on both sides.
pub open spec fn is_orthonormal<T: ExactScalar>(m: Seq<Seq<T>>) -> bool {
    &&& is_square(m, 3)
    &&& mat_mul(m, transpose(m)) == identity_matrix::<T>(3)
    &&& mat_mul(transpose(m), m) == identity_matrix::<T>(3)
}

/// The skew matrix of any vector is skew-symmetric.
pub proof fn law_hat_is_skew<T: ExactScalar>(v: Seq<T>)
    requires
        v.len() == 3,
    ensures
        is_skew(skew(v)),
{
}

/// `hat(v) * u` is the cross product of `v` and `u`.
pub proof fn law_hat_is_cross_product<T: ExactScalar>(v: Seq<T>, u: Seq<T>)
    requires
        v.len() == 3,
        u.len() == 3,
    ensures
        mat_vec(skew(v), u) == cross(v, u),
{
    let zero = T::zero_spec();
    let product = mat_vec(skew(v), u);
    T::constants_exact();
    T::add_zero(zero);
    assert(product[0] == cross(v, u)[0]) by {
        let terms = dot_terms(skew(v)[0], u);
        assert(product[0] == sum(terms, 3));
        assert(sum(terms, 3) == sum(terms, 0).add_spec(terms(0)).add_spec(terms(1)).add_spec(
            terms(2),
        )) by {
            reveal_with_fuel(sum, 4);
        }
        lemma_zero_mul(u[0]);
        T::results_exact(v[2].neg_spec(), u[1]);
        lemma_zero_add(v[2].neg_spec().mul_spec(u[1]));
        lemma_difference_of_products(v[2], u[1], v[1], u[2]);
    }
    assert(product[1] == cross(v, u)[1]) by {
        let terms = dot_terms(skew(v)[1], u);
        assert(product[1] == sum(terms, 3));
        assert(sum(terms, 3) == sum(terms, 0).add_spec(terms(0)).add_spec(terms(1)).add_spec(
            terms(2),
        )) by {
            reveal_with_fuel(sum, 4);
        }
        T::results_exact(v[2], u[0]);
        lemma_zero_add(v[2].mul_spec(u[0]));
        lemma_zero_mul(u[1]);
        T::add_zero(v[2].mul_spec(u[0]));
        T::add_commutes(v[2].mul_spec(u[0]), v[0].neg_spec().mul_spec(u[2]));
        lemma_difference_of_products(v[0], u[2], v[2], u[0]);
    }
    assert(product[2] == cross(v, u)[2]) by {
        let terms = dot_terms(skew(v)[2], u);
        assert(product[2] == sum(terms, 3));
        assert(sum(terms, 3) == sum(terms, 0).add_spec(terms(0)).add_spec(terms(1)).add_spec(
            terms(2),
        )) by {
            reveal_with_fuel(sum, 4);
        }
        T::results_exact(v[1].neg_spec(), u[0]);
        lemma_zero_add(v[1].neg_spec().mul_spec(u[0]));
        lemma_difference_of_products(v[1], u[0], v[0], u[1]);
        lemma_zero_mul(u[2]);
        T::results_exact(v[0].mul_spec(u[1]), v[1].mul_spec(u[0]));
        T::add_zero(v[0].mul_spec(u[1]).sub_spec(v[1].mul_spec(u[0])));
    }
    assert(product =~= cross(v, u));
}

/// `vee(hat(v)) = v` for a vector of three scalars.
pub proof fn law_so3_vee_of_hat<T: ExactScalar>(v: Seq<T>)
    requires
        v.len() == 3,
        exact_vector(v),
    ensures
        vee3(skew(v)) == v,
{
    lemma_half_of_difference(v[0]);
    lemma_half_of_difference(v[1]);
    lemma_half_of_difference(v[2]);
}

/// `hat(vee(m)) = m` for a skew-symmetric matrix.
pub proof fn law_so3_hat_of_vee<T: ExactScalar>(m: Seq<Seq<T>>)
    requires
        is_skew(m),
        exact_matrix(m),
    ensures
        skew(vee3(m)) == m,
{
    lemma_half_of_difference(m[2][1]);
    lemma_half_of_difference(m[0][2]);
    lemma_half_of_difference(m[1][0]);
    assert(skew(vee3(m)) =~~= m);
}

/// `vee(hat(twist)) = twist` for a twist of six scalars.
pub proof fn law_se3_vee_of_hat<T: ExactScalar>(twist: Seq<T>)
    requires
        twist.len() == 6,
        exact_vector(twist),
    ensures
        vee6(hat6(twist)) == twist,
{
    lemma_half_of_difference(twist[0]);
    lemma_half_of_difference(twist[1]);
    lemma_half_of_difference(twist[2]);
}

/// `hat(vee(m)) = m` for a matrix of se(3).
pub proof fn law_se3_hat_of_vee<T: ExactScalar>(m: Seq<Seq<T>>)
    requires
        is_se3_algebra(m),
        exact_matrix(m),
    ensures
        hat6(vee6(m)) == m,
{
    lemma_half_of_difference(m[2][1]);
    lemma_half_of_difference(m[0][2]);
    lemma_half_of_difference(m[1][0]);
    assert(hat6(vee6(m)) =~~= m);
}

/// `compose(g, identity) = g` for rotations.
pub proof fn law_so3_compose_identity<T: ExactScalar>(g: So3<T>)
    requires
        exact_matrix(g@),
    ensures
        mat_mul(g@, identity_matrix::<T>(3)) == g@,
{
    g.lemma_view_shape();
    lemma_mat_mul_identity(g@, 3);
}

/// `compose(g, inverse(g)) = identity` and `compose(inverse(g), g) = identity`
/// for an orthonormal rotation, whose inverse is orthonormal too.
pub proof fn law_so3_compose_inverse<T: ExactScalar>(g: So3<T>)
    requires
        is_orthonormal(g@),
    ensures
        mat_mul(g@, transpose(g@)) == identity_matrix::<T>(3),
        mat_mul(transpose(g@), g@) == identity_matrix::<T>(3),
        is_orthonormal(transpose(g@)),
{
    law_so3_inverse_of_inverse(g);
}

/// `inverse(inverse(g)) = g` for rotations.
pub proof fn law_so3_inverse_of_inverse<T: Scalar>(g: So3<T>)
    ensures
        transpose(transpose(g@)) == g@,
{
    g.lemma_view_shape();
    assert(transpose(transpose(g@)) =~~= g@);
}

/// `apply(inverse(g), apply(g, x)) = x` for an orthonormal rotation.
pub proof fn law_so3_apply_inverse<T: ExactScalar>(g: So3<T>, x: Seq<T>)
    requires
        is_orthonormal(g@),
        x.len() == 3,
        exact_vector(x),
    ensures
        mat_vec(transpose(g@), mat_vec(g@, x)) == x,
{
    lemma_mat_vec_associates(transpose(g@), g@, x, 3);
    lemma_identity_mat_vec(x);
}

/// `apply(compose(a, b), x) = apply(a, apply(b, x))` for rotations.
pub proof fn law_so3_apply_compose<T: ExactScalar>(a: So3<T>, b: So3<T>, x: Seq<T>)
    requires
        x.len() == 3,
    ensures
        mat_vec(mat_mul(a@, b@), x) == mat_vec(a@, mat_vec(b@, x)),
{
    a.lemma_view_shape();
    b.lemma_view_shape();
    lemma_mat_vec_associates(a@, b@, x, 3);
}

/// `compose(g, identity) = g` for rigid transforms: both parts of the
/// composition are those of `g`.
pub proof fn law_se3_compose_identity<T: ExactScalar>(g: Se3<T>)
    requires
        exact_matrix(g.rotation_matrix()),
        exact_vector(g.translation_vector()),
    ensures
        mat_mul(g.rotation_matrix(), identity_matrix::<T>(3)) == g.rotation_matrix(),
        vec_add(g.translation_vector(), mat_vec(g.rotation_matrix(), zero_vector::<T>(3)))
            == g.translation_vector(),
{
    g.lemma_shape();
    lemma_mat_mul_identity(g.rotation_matrix(), 3);
    lemma_mat_vec_zero(g.rotation_matrix(), 3);
    lemma_vec_add_zero(g.translation_vector());
}

/// `compose(g, inverse(g)) = identity` for a rigid transform with an
/// orthonormal rotation: the composition has the identity rotation and no
/// translation.
pub proof fn law_se3_compose_inverse<T: ExactScalar>(g: Se3<T>)
    requires
        is_orthonormal(g.rotation_matrix()),
        exact_vector(g.translation_vector()),
    ensures
        mat_mul(g.rotation_matrix(), transpose(g.rotation_matrix())) == identity_matrix::<T>(3),
        vec_add(
            g.translation_vector(),
            mat_vec(
                g.rotation_matrix(),
                vec_neg(mat_vec(transpose(g.rotation_matrix()), g.translation_vector())),
            ),
        ) == zero_vector::<T>(3),
{
    let r = g.rotation_matrix();
    let t = g.translation_vector();
    g.lemma_shape();
    let back = mat_vec(transpose(r), t);
    lemma_mat_vec_negates(r, back, 3);
    lemma_mat_vec_associates(r, transpose(r), t, 3);
    lemma_identity_mat_vec(t);
    lemma_vec_add_negation(t);
}

/// `apply(compose(a, b), x) = apply(a, apply(b, x))` for rigid transforms.
pub proof fn law_se3_apply_compose<T: ExactScalar>(a: Se3<T>, b: Se3<T>, x: Seq<T>)
    requires
        x.len() == 3,
    ensures
        vec_add(
            mat_vec(mat_mul(a.rotation_matrix(), b.rotation_matrix()), x),
            vec_add(a.translation_vector(), mat_vec(a.rotation_matrix(), b.translation_vector())),
        ) == vec_add(
            mat_vec(
                a.rotation_matrix(),
                vec_add(mat_vec(b.rotation_matrix(), x), b.translation_vector()),
            ),
            a.translation_vector(),
        ),
{
    let ra = a.rotation_matrix();
    let rb = b.rotation_matrix();
    let ta = a.translation_vector();
    let tb = b.translation_vector();
    a.lemma_shape();
    b.lemma_shape();
    lemma_mat_vec_associates(ra, rb, x, 3);
    lemma_mat_vec_distributes(ra, mat_vec(rb, x), tb, 3);
    let first = mat_vec(ra, mat_vec(rb, x));
    let second = mat_vec(ra, tb);
    // first + (ta + second) = (first + second) + ta
    assert(vec_add(first, vec_add(ta, second)) =~= vec_add(vec_add(first, second), ta)) by {
        assert forall|i: int| 0 <= i < 3 implies vec_add(first, vec_add(ta, second))[i] == vec_add(
            vec_add(first, second),
            ta,
        )[i] by {
            T::add_commutes(ta[i], second[i]);
            T::add_associates(first[i], second[i], ta[i]);
        }
    }
}

/// `compose(g, identity) = g` for composite transformations: the
/// composition has the base and the derivatives of `g`.
pub proof fn law_cmtm_compose_identity<T: ExactScalar, const DIM: usize>(g: GenericCmtm<T, DIM>)
    requires
        exact_matrix(g.base()),
        forall|i: int| 0 <= i < g.derivs().len() ==> exact_vector(#[trigger] g.derivs()[i]),
    ensures
        mat_mul(g.base(), identity_matrix::<T>(DIM as nat)) == g.base(),
        compose_derivs(g.derivs(), Seq::<Seq<T>>::empty(), DIM as nat) == g.derivs(),
{
    g.lemma_shape();
    lemma_mat_mul_identity(g.base(), DIM as nat);
    let composed = compose_derivs(g.derivs(), Seq::<Seq<T>>::empty(), DIM as nat);
    assert forall|i: int| 0 <= i < g.derivs().len() implies composed[i] == g.derivs()[i] by {
        lemma_vec_add_zero(g.derivs()[i]);
    }
}

/// `apply(compose(a, b), x) = apply(a, apply(b, x))` for composite
/// transformations, where to apply is to multiply by the base.
pub proof fn law_cmtm_apply_compose<T: ExactScalar, const DIM: usize>(
    a: GenericCmtm<T, DIM>,
    b: GenericCmtm<T, DIM>,
    x: Seq<T>,
)
    requires
        x.len() == DIM,
    ensures
        mat_vec(mat_mul(a.base(), b.base()), x) == mat_vec(a.base(), mat_vec(b.base(), x)),
{
    a.lemma_shape();
    b.lemma_shape();
    lemma_mat_vec_associates(a.base(), b.base(), x, DIM as nat);
}

/// The block matrix has `dim * order` rows of `dim * order` entries.
pub proof fn law_block_side<T: Scalar>(base: Seq<Seq<T>>, derivs: Seq<Seq<T>>, order: nat)
    ensures
        is_square(block_matrix_spec(base, derivs, order), base.len() * order),
{
}

/// Block `(j, j - i)` of the block matrix is `M(i)`: every block of the
/// diagonal is the base, and the diagonal `i` steps under it holds `M(i)`.
pub proof fn law_block_under_diagonal<T: Scalar>(
    base: Seq<Seq<T>>,
    derivs: Seq<Seq<T>>,
    order: nat,
    j: int,
    i: int,
    r: int,
    c: int,
)
    requires
        0 <= i <= j < order,
        0 <= r < base.len(),
        0 <= c < base.len(),
    ensures
        0 <= j * base.len() + r < base.len() * order,
        0 <= (j - i) * base.len() + c < base.len() * order,
        block_matrix_spec(base, derivs, order)[j * base.len() + r][(j - i) * base.len() + c]
            == mat_elem_spec(base, derivs, i as nat)[r][c],
        mat_elem_spec(base, derivs, 0) == base,
{
    let dim = base.len() as int;
    lemma_block_index(dim, order as int, j, r);
    lemma_block_index(dim, order as int, j - i, c);
}

/// The blocks over the diagonal of the block matrix are zero.
pub proof fn law_block_over_diagonal<T: Scalar>(
    base: Seq<Seq<T>>,
    derivs: Seq<Seq<T>>,
    order: nat,
    j: int,
    k: int,
    r: int,
    c: int,
)
    requires
        0 <= j < k < order,
        0 <= r < base.len(),
        0 <= c < base.len(),
    ensures
        0 <= j * base.len() + r < base.len() * order,
        0 <= k * base.len() + c < base.len() * order,
        block_matrix_spec(base, derivs, order)[j * base.len() + r][k * base.len() + c]
            == T::zero_spec(),
{
    let dim = base.len() as int;
    lemma_block_index(dim, order as int, j, r);
    lemma_block_index(dim, order as int, k, c);
}

/// Entry `offset` of block `block` has index `block * dim + offset`, which
/// lies in the matrix and leads back to the block and the offset.
proof fn lemma_block_index(dim: int, order: int, block: int, offset: int)
    requires
        0 <= block < order,
        0 <= offset < dim,
    ensures
        0 <= block * dim + offset < dim * order,
        (block * dim + offset) / dim == block,
        (block * dim + offset) % dim == offset,
{
    vstd::arithmetic::div_mod::lemma_fundamental_div_mod_converse(
        block * dim + offset,
        dim,
        block,
        offset,
    );
    assert(block * dim + offset < dim * order) by (nonlinear_arith)
        requires
            0 <= block < order,
            0 <= offset < dim,
    ;
    assert(0 <= block * dim) by (nonlinear_arith)
        requires
            0 <= block,
            0 < dim,
    ;
}

/// The block matrix of order 1 is the base.
pub proof fn law_first_order_block<T: Scalar>(base: Seq<Seq<T>>, derivs: Seq<Seq<T>>)
    requires
        is_square(base, base.len()),
    ensures
        block_matrix_spec(base, derivs, 1) == base,
{
    let dim = base.len() as int;
    let block = block_matrix_spec(base, derivs, 1);
    assert forall|r: int, c: int| 0 <= r < dim && 0 <= c < dim implies
        block[r][c] == base[r][c] by {
        lemma_block_index(dim, 1, 0, r);
        lemma_block_index(dim, 1, 0, c);
    }
    assert(block =~~= base);
}

/// `apply(compose(a, b), x) = apply(a, apply(b, x))` for composite
/// transformations, where to apply is to multiply by the block matrix of
/// order 1.
pub proof fn law_cmtm_block_apply_compose<T: ExactScalar, const DIM: usize>(
    a: GenericCmtm<T, DIM>,
    b: GenericCmtm<T, DIM>,
    x: Seq<T>,
)
    requires
        x.len() == DIM,
    ensures
        mat_vec(
            block_matrix_spec(
                mat_mul(a.base(), b.base()),
                compose_derivs(a.derivs(), b.derivs(), DIM as nat),
                1,
            ),
            x,
        ) == mat_vec(
            block_matrix_spec(a.base(), a.derivs(), 1),
            mat_vec(block_matrix_spec(b.base(), b.derivs(), 1), x),
        ),
{
    a.lemma_shape();
    b.lemma_shape();
    let product = mat_mul(a.base(), b.base());
    law_first_order_block(product, compose_derivs(a.derivs(), b.derivs(), DIM as nat));
    law_first_order_block(a.base(), a.derivs());
    law_first_order_block(b.base(), b.derivs());
    lemma_mat_vec_associates(a.base(), b.base(), x, DIM as nat);
}

/// The matrix of a tangent vector with canonical entries is square and has
/// canonical entries.
pub proof fn lemma_hat_adj_exact<T: ExactScalar>(v: Seq<T>)
    requires
        v.len() == 3 || v.len() == 6,
        exact_vector(v),
    ensures
        is_square(hat_adj_spec(v), v.len()),
        exact_matrix(hat_adj_spec(v)),
{
    T::constants_exact();
    let h = hat_adj_spec(v);
    assert forall|r: int, c: int| 0 <= r < h.len() && 0 <= c < h[r].len() implies
        (#[trigger] h[r][c]).is_exact() by {
        assert forall|k: int| 0 <= k < v.len() implies (#[trigger] v[k]).neg_spec().is_exact() by {
            T::results_exact(v[k], v[k]);
        }
    }
}

/// The coefficient of order 1 is `base * hat(d0)`: in the block matrix of
/// order 2 it stands under the diagonal, and where the base is the identity
/// it is `hat(d0)` itself.
pub proof fn law_second_order_block<T: ExactScalar>(base: Seq<Seq<T>>, derivs: Seq<Seq<T>>)
    requires
        base.len() == 3 || base.len() == 6,
        is_square(base, base.len()),
        derivs.len() >= 1,
        derivs[0].len() == base.len(),
        exact_vector(derivs[0]),
    ensures
        mat_elem_spec(base, derivs, 1) == mat_mul(base, hat_adj_spec(derivs[0])),
        base == identity_matrix::<T>(base.len()) ==> mat_elem_spec(base, derivs, 1) == hat_adj_spec(
            derivs[0],
        ),
{
    let n = base.len();
    let hat = hat_adj_spec(derivs[0]);
    let product = mat_mul(base, hat);
    lemma_vec_div_one(derivs[0]);
    lemma_hat_adj_exact(derivs[0]);
    lemma_mat_mul_exact(base, hat);
    assert(elem_sum(base, derivs, 1, 0) == zero_matrix::<T>(n));
    assert(mat_elem_spec(base, derivs, 0) == base);
    lemma_zero_mat_add(product, n);
    T::count_one();
    lemma_mat_div_one(product);
    if base == identity_matrix::<T>(n) {
        lemma_identity_mat_mul(hat, n);
    }
}

/// The coefficient of order 2 is
/// `((base * hat(d0)) * hat(d0) + base * hat(d1)) / 2`; where the base is
/// the identity it is `(hat(d1) + hat(d0) * hat(d0)) / 2`. In the block
/// matrix of order 3 it stands in the lower left corner.
pub proof fn law_third_order_block<T: ExactScalar>(base: Seq<Seq<T>>, derivs: Seq<Seq<T>>)
    requires
        base.len() == 3 || base.len() == 6,
        is_square(base, base.len()),
        derivs.len() >= 2,
        derivs[0].len() == base.len(),
        derivs[1].len() == base.len(),
        exact_vector(derivs[0]),
        exact_vector(derivs[1]),
    ensures
        mat_elem_spec(base, derivs, 2) == mat_div(
            mat_add(
                mat_mul(mat_mul(base, hat_adj_spec(derivs[0])), hat_adj_spec(derivs[0])),
                mat_mul(base, hat_adj_spec(derivs[1])),
            ),
            T::from_count_spec(2),
        ),
        base == identity_matrix::<T>(base.len()) ==> mat_elem_spec(base, derivs, 2) == mat_div(
            mat_add(
                hat_adj_spec(derivs[1]),
                mat_mul(hat_adj_spec(derivs[0]), hat_adj_spec(derivs[0])),
            ),
            T::from_count_spec(2),
        ),
{
    let n = base.len();
    let hat0 = hat_adj_spec(derivs[0]);
    let hat1 = hat_adj_spec(derivs[1]);
    let first = mat_mul(mat_mul(base, hat0), hat0);
    law_second_order_block(base, derivs);
    lemma_hat_adj_exact(derivs[0]);
    lemma_hat_adj_exact(derivs[1]);
    lemma_vec_div_one(derivs[0]);
    lemma_vec_div_one(derivs[1]);
    T::count_one();
    T::constants_exact();
    T::mul_one(T::one_spec());
    assert(factorial_spec::<T>(1) == T::one_spec());
    assert(elem_sum(base, derivs, 2, 0) == zero_matrix::<T>(n));
    assert(elem_sum(base, derivs, 2, 1) == mat_add(zero_matrix::<T>(n), first));
    lemma_mat_mul_exact(mat_mul(base, hat0), hat0);
    lemma_zero_mat_add(first, n);
    assert(mat_elem_spec(base, derivs, 0) == base);
    if base == identity_matrix::<T>(n) {
        lemma_identity_mat_mul(hat1, n);
        lemma_mat_add_commutes(mat_mul(hat0, hat0), hat1, n);
    }
}

/// The homogeneous matrix of a composition is the product of the
/// homogeneous matrices.
pub proof fn law_se3_matrix_of_composition<T: ExactScalar>(a: Se3<T>, b: Se3<T>)
    requires
        exact_vector(a.translation_vector()),
    ensures
        mat_mul(a.matrix_spec(), b.matrix_spec()) == a.compose_spec(&b),
{
    let ra = a.rotation_matrix();
    let rb = b.rotation_matrix();
    let ta = a.translation_vector();
    let tb = b.translation_vector();
    let left = a.matrix_spec();
    let right = b.matrix_spec();
    let product = mat_mul(left, right);
    let composed = a.compose_spec(&b);
    a.lemma_shape();
    b.lemma_shape();
    T::constants_exact();
    assert forall|r: int, c: int| 0 <= r < 4 && 0 <= c < 4 implies
        product[r][c] == composed[r][c] by {
        let terms = dot_terms(left[r], column(right, c));
        if r < 3 {
            if c < 3 {
                lemma_sum_congruence(terms, dot_terms(ra[r], column(rb, c)), 3);
                lemma_mul_zero(ta[r]);
                lemma_sum_exact(terms, 3);
                T::add_zero(sum(terms, 3));
            } else {
                lemma_sum_congruence(terms, dot_terms(ra[r], tb), 3);
                T::mul_one(ta[r]);
                T::add_commutes(sum(terms, 3), ta[r]);
            }
        } else {
            assert forall|k: int| 0 <= k < 3 implies #[trigger] terms(k) == T::zero_spec() by {
                lemma_zero_mul(right[k][c]);
            }
            lemma_sum_of_zeros(terms, 3);
            lemma_one_mul(right[3][c]);
            lemma_zero_add(right[3][c]);
        }
    }
    assert(product =~~= composed);
}

/// A composite transformation built of a rigid transform takes a twist
/// where the adjoint matrix of the transform takes it.
pub proof fn law_adjoint_consistency<T: ExactScalar>(
    transform: Se3<T>,
    cmtm: GenericCmtm<T, 6>,
    twist: Seq<T>,
)
    requires
        cmtm.base() == adjoint_of(transform.rotation_matrix(), transform.translation_vector()),
    ensures
        mat_vec(cmtm.base(), twist) == mat_vec(transform.adjoint_spec(), twist),
{
}

/// The adjoint matrix of a rigid transform has the rotation in both
/// diagonal blocks, the skew matrix of the translation times the rotation in
/// the lower left block, and zeros in the upper right block.
pub proof fn law_adjoint_layout<T: ExactScalar>(transform: Se3<T>, i: int, j: int)
    requires
        0 <= i < 3,
        0 <= j < 3,
    ensures
        transform.adjoint_spec()[i][j] == transform.rotation_matrix()[i][j],
        transform.adjoint_spec()[i + 3][j + 3] == transform.rotation_matrix()[i][j],
        transform.adjoint_spec()[i + 3][j] == mat_mul(
            skew(transform.translation_vector()),
            transform.rotation_matrix(),
        )[i][j],
        transform.adjoint_spec()[i][j + 3] == T::zero_spec(),
{
}

/// `a * b` is the composition of `a` and `b`, for rotations.
pub proof fn law_so3_mul_is_compose<T: Scalar>(a: So3<T>, b: So3<T>)
    ensures
        a.mul_spec(b)@ == mat_mul(a@, b@),
{
    a.lemma_view_shape();
    So3::lemma_view_of_matrix(mat_mul(a@, b@));
}

/// `a * b` is the composition of `a` and `b`, for rigid transforms.
pub proof fn law_se3_mul_is_compose<T: Scalar>(a: Se3<T>, b: Se3<T>)
    ensures
        a.mul_spec(b).rotation_matrix() == mat_mul(a.rotation_matrix(), b.rotation_matrix()),
        a.mul_spec(b).translation_vector() == vec_add(
            a.translation_vector(),
            mat_vec(a.rotation_matrix(), b.translation_vector()),
        ),
{
    a.lemma_shape();
    Se3::lemma_parts_of(
        mat_mul(a.rotation_matrix(), b.rotation_matrix()),
        vec_add(a.translation_vector(), mat_vec(a.rotation_matrix(), b.translation_vector())),
    );
}

/// The order of a composition is the larger of the two orders.
pub proof fn law_cmtm_compose_order<T: Scalar, const DIM: usize>(
    a: GenericCmtm<T, DIM>,
    b: GenericCmtm<T, DIM>,
)
    ensures
        compose_derivs(a.derivs(), b.derivs(), DIM as nat).len() + 1 == if a.order_spec()
            >= b.order_spec() {
            a.order_spec()
        } else {
            b.order_spec()
        },
{
}

/// A block matrix of a lower order is the upper left corner of the block
/// matrix of any higher order.
pub proof fn law_block_corner<T: Scalar>(
    base: Seq<Seq<T>>,
    derivs: Seq<Seq<T>>,
    lower: nat,
    higher: nat,
    row: int,
    col: int,
)
    requires
        lower <= higher,
        0 <= row < base.len() * lower,
        0 <= col < base.len() * lower,
    ensures
        row < base.len() * higher,
        col < base.len() * higher,
        block_matrix_spec(base, derivs, lower)[row][col] == block_matrix_spec(
            base,
            derivs,
            higher,
        )[row][col],
{
    assert(base.len() * lower <= base.len() * higher) by (nonlinear_arith)
        requires
            lower <= higher,
    ;
}

/// The coefficient of order `p` reads the first `p` derivatives only: two
/// lists that agree there give the same coefficient.
pub proof fn law_elem_reads_prefix<T: Scalar>(
    base: Seq<Seq<T>>,
    first: Seq<Seq<T>>,
    second: Seq<Seq<T>>,
    p: nat,
)
    requires
        first.len() >= p,
        second.len() >= p,
        forall|i: int| 0 <= i < p ==> first[i] == second[i],
    ensures
        mat_elem_spec(base, first, p) == mat_elem_spec(base, second, p),
    decreases p, p + 1,
{
    if p > 0 {
        lemma_sum_reads_prefix(base, first, second, p, p);
    }
}

/// The sums behind the coefficient of order `p` read the first `p`
/// derivatives only.
proof fn lemma_sum_reads_prefix<T: Scalar>(
    base: Seq<Seq<T>>,
    first: Seq<Seq<T>>,
    second: Seq<Seq<T>>,
    p: nat,
    n: nat,
)
    requires
        n <= p,
        first.len() >= p,
        second.len() >= p,
        forall|i: int| 0 <= i < p ==> first[i] == second[i],
    ensures
        elem_sum(base, first, p, n) == elem_sum(base, second, p, n),
    decreases p, n,
{
    if n > 0 {
        lemma_sum_reads_prefix(base, first, second, p, (n - 1) as nat);
        law_elem_reads_prefix(base, first, second, (p - n) as nat);
    }
}

/// `compose(compose(a, b), c) = compose(a, compose(b, c))` for rotations.
pub proof fn law_so3_compose_associates<T: ExactScalar>(a: So3<T>, b: So3<T>, c: So3<T>)
    ensures
        mat_mul(mat_mul(a@, b@), c@) == mat_mul(a@, mat_mul(b@, c@)),
{
    a.lemma_view_shape();
    b.lemma_view_shape();
    c.lemma_view_shape();
    lemma_mat_mul_associates(a@, b@, c@, 3);
}

/// `compose(compose(a, b), c) = compose(a, compose(b, c))` for rigid
/// transforms: the two compositions have the same rotation and the same
/// translation.
pub proof fn law_se3_compose_associates<T: ExactScalar>(a: Se3<T>, b: Se3<T>, c: Se3<T>)
    ensures
        mat_mul(mat_mul(a.rotation_matrix(), b.rotation_matrix()), c.rotation_matrix()) == mat_mul(
            a.rotation_matrix(),
            mat_mul(b.rotation_matrix(), c.rotation_matrix()),
        ),
        vec_add(
            vec_add(a.translation_vector(), mat_vec(a.rotation_matrix(), b.translation_vector())),
            mat_vec(mat_mul(a.rotation_matrix(), b.rotation_matrix()), c.translation_vector()),
        ) == vec_add(
            a.translation_vector(),
            mat_vec(
                a.rotation_matrix(),
                vec_add(
                    b.translation_vector(),
                    mat_vec(b.rotation_matrix(), c.translation_vector()),
                ),
            ),
        ),
{
    let ra = a.rotation_matrix();
    let rb = b.rotation_matrix();
    let rc = c.rotation_matrix();
    a.lemma_shape();
    b.lemma_shape();
    c.lemma_shape();
    lemma_mat_mul_associates(ra, rb, rc, 3);
    lemma_mat_vec_associates(ra, rb, c.translation_vector(), 3);
    lemma_mat_vec_distributes(ra, b.translation_vector(), mat_vec(rb, c.translation_vector()), 3);
    lemma_vec_add_associates(
        a.translation_vector(),
        mat_vec(ra, b.translation_vector()),
        mat_vec(ra, mat_vec(rb, c.translation_vector())),
    );
}

} // verus!
