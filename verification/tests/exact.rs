use mathroborust::lie::{apply_linear, HasAdjoint, LieGroup};
use mathroborust::matrix::{matrix_identity, matrix_product, matrix_transpose};
use mathroborust::residue::{Residue, MODULUS};
use mathroborust::util::skew_symmetric;
use mathroborust::{
    Cmtm, CmtmError, ExpCoupling, GenericCmtm, RotationalCmtm, Scalar, Se3, So3, SpatialCmtm,
};

fn r(x: i32) -> Residue {
    Residue::from_int(x)
}

fn vector<const N: usize>(values: [i32; N]) -> [Residue; N] {
    values.map(r)
}

fn matrix<const N: usize>(values: [[i32; N]; N]) -> [[Residue; N]; N] {
    values.map(vector)
}

/// The product of two integer matrices, computed without the library.
fn int_product<const N: usize>(a: [[i32; N]; N], b: [[i32; N]; N]) -> [[i32; N]; N] {
    let mut out = [[0; N]; N];
    for i in 0..N {
        for j in 0..N {
            for k in 0..N {
                out[i][j] += a[i][k] * b[k][j];
            }
        }
    }
    out
}

fn int_skew(v: [i32; 3]) -> [[i32; 3]; 3] {
    [[0, -v[2], v[1]], [v[2], 0, -v[0]], [-v[1], v[0], 0]]
}

/// The quarter turn about the z axis.
const TURN_Z: [[i32; 3]; 3] = [[0, -1, 0], [1, 0, 0], [0, 0, 1]];

/// The quarter turn about the y axis.
const TURN_Y: [[i32; 3]; 3] = [[0, 0, 1], [0, 1, 0], [-1, 0, 0]];

/// The quarter turn about the x axis.
const TURN_X: [[i32; 3]; 3] = [[1, 0, 0], [0, 0, -1], [0, 1, 0]];

#[test]
fn residue_reduces_and_wraps() {
    assert_eq!(MODULUS, 2147483647);
    assert_eq!(Residue::new(MODULUS).value(), 0);
    assert_eq!(Residue::new(MODULUS + 5).value(), 5);
    assert_eq!(r(-1).value(), MODULUS - 1);
    assert_eq!(r(i32::MIN).value(), MODULUS - 1);
    assert_eq!(r(i32::MAX).value(), 0);
    assert_eq!(r(7).add(r(-9)), r(-2));
    assert_eq!(r(7).sub(r(9)), r(-2));
    assert_eq!(r(-7).mul(r(9)), r(-63));
    assert_eq!(r(5).neg(), r(-5));
    assert_eq!(r(0).neg(), r(0));
    assert_eq!(Residue::from_count(12), r(12));
    assert_eq!(Residue::zero(), r(0));
    assert_eq!(Residue::one(), r(1));
}

#[test]
fn residue_half_doubles_to_one() {
    let half = Residue::half();
    assert_eq!(half.value(), 1073741824);
    assert_eq!(half.add(half), r(1));
    assert_eq!(half.mul(r(10)), r(5));
}

#[test]
fn residue_division_inverts_multiplication() {
    assert_eq!(r(1).inverse(), r(1));
    assert_eq!(r(2).inverse(), Residue::half());
    assert_eq!(r(-1).inverse(), r(-1));
    assert_eq!(r(0).inverse(), r(0));
    assert_eq!(Residue { value: MODULUS }.inverse(), r(0));
    for b in [1, 2, 3, 6, 7, 24, 120, 65537, -1, -12345] {
        let quotient = r(42).div(r(b));
        assert_eq!(quotient.mul(r(b)), r(42));
    }
    assert_eq!(r(42).div(r(6)), r(7));
    assert_eq!(r(42).div(r(1)), r(42));
    assert_eq!(r(42).div(r(0)), r(0));
}

#[test]
fn residue_takes_values_that_are_not_canonical() {
    let big = Residue { value: u32::MAX };
    assert_eq!(big.value(), 1);
    assert_eq!(big.add(big), r(2));
    assert_eq!(big.mul(big), r(1));
    assert_eq!(big.sub(r(3)), r(-2));
    assert_eq!(big.neg(), r(-1));
    assert_eq!(r(5).div(big), r(5));
}

#[test]
fn exact_rotation_about_z_takes_x_to_y() {
    let rotation = So3::from_matrix(matrix(TURN_Z));
    assert_eq!(rotation.apply(vector([1, 0, 0])), vector([0, 1, 0]));
}

#[test]
fn exact_transform_rotates_then_translates() {
    let rotation = So3::from_matrix(matrix(TURN_Y));
    let transform = Se3::from_parts(rotation, vector([1, 2, 3]));
    assert_eq!(transform.apply(vector([1, 0, 0])), vector([1, 2, 2]));
}

#[test]
fn exact_exp_of_pure_translation() {
    let rotation = So3::<Residue>::identity();
    let exp = Se3::exp(vector([0, 0, 0, 1, 2, 3]), None, &rotation, ExpCoupling::ZeroAngle);
    assert_eq!(exp, matrix([[1, 0, 0, 1], [0, 1, 0, 2], [0, 0, 1, 3], [0, 0, 0, 1]]));
}

#[test]
fn exact_exp_scales_the_twist() {
    let rotation = So3::<Residue>::identity();
    let exp = Se3::exp(
        vector([0, 0, 0, 1, 2, 3]),
        Some(r(4)),
        &rotation,
        ExpCoupling::ZeroAngle,
    );
    assert_eq!(exp, matrix([[1, 0, 0, 4], [0, 1, 0, 8], [0, 0, 1, 12], [0, 0, 0, 1]]));
}

#[test]
fn exact_exp_small_angle_uses_half_the_skew_matrix() {
    // w = [0, 0, 2], v = [2, 4, 6]: (I + [w]x / 2) v = [2 - 4, 2 + 4, 6]
    let rotation = So3::from_matrix(matrix(TURN_Z));
    let exp = Se3::exp(
        vector([0, 0, 1, 1, 2, 3]),
        Some(r(2)),
        &rotation,
        ExpCoupling::SmallAngle,
    );
    assert_eq!(exp, matrix([[0, -1, 0, -2], [1, 0, 0, 6], [0, 0, 1, 6], [0, 0, 0, 1]]));
}

#[test]
fn exact_exp_full_angle_uses_both_coefficients() {
    // w = [0, 0, 2], [w]x^2 = diag(-4, -4, 0), v = [2, 0, 0]:
    // (I + 3 [w]x + 5 [w]x^2) v = [(1 - 20) * 2, 6 * 2, 0]
    let rotation = So3::<Residue>::identity();
    let exp = Se3::exp(
        vector([0, 0, 1, 1, 0, 0]),
        Some(r(2)),
        &rotation,
        ExpCoupling::FullAngle { first: r(3), second: r(5) },
    );
    assert_eq!(exp, matrix([[1, 0, 0, -38], [0, 1, 0, 12], [0, 0, 1, 0], [0, 0, 0, 1]]));
}

#[test]
fn exact_hat_and_vee_round_trip() {
    let v = vector([3, -5, 7]);
    let hat = So3::hat(v);
    assert_eq!(hat, matrix([[0, -7, -5], [7, 0, -3], [5, 3, 0]]));
    assert_eq!(So3::vee(hat), v);
    assert_eq!(So3::hat(So3::vee(hat)), hat);

    let twist = vector([3, -5, 7, 11, -13, 17]);
    let hat = Se3::hat(twist);
    assert_eq!(
        hat,
        matrix([[0, -7, -5, 11], [7, 0, -3, -13], [5, 3, 0, 17], [0, 0, 0, 0]])
    );
    assert_eq!(Se3::vee(hat), twist);
    assert_eq!(Se3::hat(Se3::vee(hat)), hat);
}

#[test]
fn exact_hat_multiplies_as_the_cross_product() {
    let v = [3, -5, 7];
    let u = [2, 11, -13];
    let cross = [
        v[1] * u[2] - v[2] * u[1],
        v[2] * u[0] - v[0] * u[2],
        v[0] * u[1] - v[1] * u[0],
    ];
    assert_eq!(apply_linear(&So3::hat(vector(v)), vector(u)), vector(cross));
    assert_eq!(apply_linear(&So3::hat(vector(v)), vector(v)), vector([0, 0, 0]));
}

#[test]
fn exact_vee_averages_a_matrix_that_is_not_skew() {
    // (m21 - m12) / 2, (m02 - m20) / 2, (m10 - m01) / 2
    let m = matrix([[9, 2, 10], [8, 9, 1], [4, 7, 9]]);
    assert_eq!(So3::vee(m), vector([3, 3, 3]));
}

#[test]
fn exact_so3_group_laws() {
    let g = So3::from_matrix(matrix(TURN_Z));
    let h = So3::from_matrix(matrix(TURN_X));
    let identity = So3::<Residue>::identity();
    assert_eq!(identity.to_matrix(), matrix([[1, 0, 0], [0, 1, 0], [0, 0, 1]]));
    assert_eq!(g.compose(&identity), g);
    assert_eq!(g.compose(&g.inverse()), identity);
    assert_eq!(g.inverse().to_matrix(), matrix([[0, 1, 0], [-1, 0, 0], [0, 0, 1]]));
    assert_eq!(g.compose(&h).to_matrix(), matrix(int_product(TURN_Z, TURN_X)));
    let x = vector([2, -3, 5]);
    assert_eq!(g.compose(&h).apply(x), g.apply(h.apply(x)));
    assert_eq!(g.inverse().compose(&g), identity);
    assert_eq!(g.inverse().inverse(), g);
    assert_eq!(g.inverse().apply(g.apply(x)), x);
    assert_eq!(g.compose(&h).compose(&g), g.compose(&h.compose(&g)));
    assert_eq!(g * h, g.compose(&h));
    assert_eq!(*g.rotation(), g.to_matrix());
    assert_eq!(g.clone(), g);
}

#[test]
fn exact_se3_group_laws() {
    let g = Se3::from_parts(So3::from_matrix(matrix(TURN_Z)), vector([1, -2, 3]));
    let h = Se3::from_parts(So3::from_matrix(matrix(TURN_Y)), vector([-4, 5, 6]));
    let identity = Se3::<Residue>::identity();
    assert_eq!(g.compose(&identity), g);
    assert_eq!(g.compose(&g.inverse()), identity);
    // the translation of the inverse is -R^T t
    assert_eq!(g.inverse().translation(), vector([2, 1, -3]));
    // the translation of the composition is t + R t'
    assert_eq!(g.compose(&h).translation(), vector([1 - 5, -2 - 4, 3 + 6]));
    assert_eq!(
        g.compose(&h).rotation().to_matrix(),
        matrix(int_product(TURN_Z, TURN_Y))
    );
    let x = vector([2, -3, 5]);
    assert_eq!(g.compose(&h).apply(x), g.apply(h.apply(x)));
    assert_eq!(g * h, g.compose(&h));
    assert_eq!(g.clone(), g);
}

#[test]
fn exact_se3_matrix_has_the_homogeneous_layout() {
    let g = Se3::from_parts(So3::from_matrix(matrix(TURN_Z)), vector([1, -2, 3]));
    let m = g.to_matrix();
    assert_eq!(m, matrix([[0, -1, 0, 1], [1, 0, 0, -2], [0, 0, 1, 3], [0, 0, 0, 1]]));
    assert_eq!(Se3::from_matrix(m), g);
    // the last row is not read
    let mut odd = m;
    odd[3] = vector([7, 7, 7, 7]);
    assert_eq!(Se3::from_matrix(odd), g);
    assert_eq!(LieGroup::as_matrix(&g), m);
    let unit: Se3<Residue> = LieGroup::identity();
    assert_eq!(unit.to_matrix(), matrix_identity::<Residue, 4>());
}

#[test]
fn exact_lie_group_trait_agrees_with_the_methods() {
    let g = So3::from_matrix(matrix(TURN_Z));
    let h = So3::from_matrix(matrix(TURN_X));
    assert_eq!(LieGroup::compose(&g, &h), g.compose(&h));
    assert_eq!(LieGroup::inverse(&g), g.inverse());
    assert_eq!(LieGroup::as_matrix(&g), g.to_matrix());
    let unit: So3<Residue> = LieGroup::identity();
    assert_eq!(unit, So3::identity());

    let a = Se3::from_parts(g, vector([1, 2, 3]));
    let b = Se3::from_parts(h, vector([4, 5, 6]));
    assert_eq!(LieGroup::compose(&a, &b), a.compose(&b));
    assert_eq!(LieGroup::inverse(&a), a.inverse());
    assert_eq!(a.adjoint_matrix(), a.adjoint());
}

#[test]
fn exact_adjoint_has_the_block_layout() {
    let t = [1, 2, 3];
    let g = Se3::from_parts(So3::from_matrix(matrix(TURN_Z)), vector(t));
    let adjoint = g.adjoint();
    let low = int_product(int_skew(t), TURN_Z);
    for i in 0..3 {
        for j in 0..3 {
            assert_eq!(adjoint[i][j], r(TURN_Z[i][j]));
            assert_eq!(adjoint[i + 3][j + 3], r(TURN_Z[i][j]));
            assert_eq!(adjoint[i + 3][j], r(low[i][j]));
            assert_eq!(adjoint[i][j + 3], r(0));
        }
    }
    let twist = vector([1, -1, 2, 3, 5, -7]);
    let cmtm = Cmtm::from_se3(&g);
    assert_eq!(cmtm.to_matrix(), adjoint);
    assert_eq!(*cmtm.matrix(), adjoint);
    assert_eq!(cmtm.apply_twist(twist), apply_linear(&adjoint, twist));
    assert_eq!(cmtm.order(), 1);
}

#[test]
fn exact_matrix_helpers() {
    let a = matrix([[1, 2, 3], [4, 5, 6], [7, 8, 10]]);
    let b = matrix([[0, 1, 0], [2, 0, -1], [1, 1, 1]]);
    assert_eq!(
        matrix_product(&a, &b),
        matrix(int_product(
            [[1, 2, 3], [4, 5, 6], [7, 8, 10]],
            [[0, 1, 0], [2, 0, -1], [1, 1, 1]]
        ))
    );
    assert_eq!(matrix_transpose(&a), matrix([[1, 4, 7], [2, 5, 8], [3, 6, 10]]));
    assert_eq!(apply_linear(&a, vector([1, 0, -1])), vector([-2, -2, -3]));
    assert_eq!(skew_symmetric(&vector([1, 2, 3])), matrix(int_skew([1, 2, 3])));
}

#[test]
fn cmtm_identity_has_order_one() {
    let identity = SpatialCmtm::<Residue>::identity();
    assert_eq!(identity.order(), 1);
    assert_eq!(identity.to_matrix(), matrix_identity::<Residue, 6>());
    let block = identity.to_block_matrix(None).unwrap();
    assert_eq!(block.len(), 6);
    for i in 0..6 {
        assert_eq!(block[i].len(), 6);
        for j in 0..6 {
            assert_eq!(block[i][j], r(if i == j { 1 } else { 0 }));
        }
    }
}

#[test]
fn cmtm_can_hold_up_to_the_largest_side() {
    assert!(RotationalCmtm::<Residue>::can_hold(0));
    assert!(RotationalCmtm::<Residue>::can_hold(1000));
    assert!(RotationalCmtm::<Residue>::can_hold(usize::MAX / 3 - 1));
    assert!(!RotationalCmtm::<Residue>::can_hold(usize::MAX / 3));
    assert!(!RotationalCmtm::<Residue>::can_hold(usize::MAX));
    assert!(SpatialCmtm::<Residue>::can_hold(usize::MAX / 6 - 1));
    assert!(!SpatialCmtm::<Residue>::can_hold(usize::MAX / 6));
    assert!(GenericCmtm::<Residue, 0>::can_hold(usize::MAX - 1));
    assert!(!GenericCmtm::<Residue, 0>::can_hold(usize::MAX));
}

#[test]
fn cmtm_factorial_is_exact() {
    assert_eq!(RotationalCmtm::<Residue>::factorial(0), r(1));
    assert_eq!(RotationalCmtm::<Residue>::factorial(1), r(1));
    assert_eq!(RotationalCmtm::<Residue>::factorial(5), r(120));
    assert_eq!(RotationalCmtm::<Residue>::factorial(10), r(3628800));
}

#[test]
fn cmtm_order_requests_are_checked() {
    let rotation = So3::<Residue>::identity();
    let cmtm = RotationalCmtm::from_so3_with_derivatives(
        &rotation,
        vec![vector([1, 2, 3]), vector([4, 5, 6])],
    );
    assert_eq!(cmtm.order(), 3);
    assert_eq!(cmtm.check_output_order(None), Ok(3));
    assert_eq!(cmtm.check_output_order(Some(1)), Ok(1));
    assert_eq!(cmtm.check_output_order(Some(3)), Ok(3));
    assert_eq!(cmtm.check_output_order(Some(0)), Err(CmtmError::ZeroOrder));
    assert_eq!(cmtm.check_output_order(Some(4)), Err(CmtmError::OrderExceedsDerivatives));
    assert_eq!(cmtm.to_block_matrix(Some(0)), Err(CmtmError::ZeroOrder));
    assert_eq!(cmtm.to_block_matrix(Some(4)), Err(CmtmError::OrderExceedsDerivatives));
    assert_eq!(cmtm.to_block_matrix(Some(2)).unwrap().len(), 6);
    assert_eq!(cmtm.to_block_matrix(Some(1)).unwrap().len(), 3);

    let spatial = SpatialCmtm::<Residue>::identity();
    assert_eq!(spatial.to_block_matrix(Some(0)), Err(CmtmError::ZeroOrder));
    assert_eq!(spatial.to_block_matrix(Some(2)), Err(CmtmError::OrderExceedsDerivatives));
}

#[test]
fn cmtm_other_dimensions_are_refused() {
    let cmtm = GenericCmtm::<Residue, 4>::identity();
    assert_eq!(cmtm.order(), 1);
    assert_eq!(cmtm.build_block_matrix(None), Err(CmtmError::UnsupportedDimension));
    assert_eq!(cmtm.build_block_matrix(Some(1)), Err(CmtmError::UnsupportedDimension));
    // the order is looked at first
    assert_eq!(cmtm.build_block_matrix(Some(0)), Err(CmtmError::ZeroOrder));
    assert_eq!(cmtm.build_block_matrix(Some(2)), Err(CmtmError::OrderExceedsDerivatives));
}

#[test]
fn cmtm_error_messages() {
    assert_eq!(CmtmError::ZeroOrder.message(), "Output order must be positive");
    assert_eq!(
        CmtmError::OrderExceedsDerivatives.message(),
        "Output order exceeds available derivatives"
    );
    assert_eq!(
        CmtmError::UnsupportedDimension.message(),
        "hat_adj not implemented for this dimension"
    );
}

#[test]
fn cmtm_hat_adj_in_both_dimensions() {
    assert_eq!(
        RotationalCmtm::<Residue>::hat_adj(&vector([1, 2, 3])),
        matrix(int_skew([1, 2, 3]))
    );
    let hat = SpatialCmtm::<Residue>::hat_adj(&vector([1, 2, 3, 4, 5, 6]));
    let w = int_skew([1, 2, 3]);
    let v = int_skew([4, 5, 6]);
    for i in 0..3 {
        for j in 0..3 {
            assert_eq!(hat[i][j], r(w[i][j]));
            assert_eq!(hat[i + 3][j + 3], r(w[i][j]));
            assert_eq!(hat[i + 3][j], r(v[i][j]));
            assert_eq!(hat[i][j + 3], r(0));
        }
    }
}

#[test]
fn cmtm_second_order_block_is_base_times_hat() {
    let d0 = [1, -2, 3];
    let rotation = So3::from_matrix(matrix(TURN_Z));
    let cmtm = RotationalCmtm::from_so3_with_derivatives(&rotation, vec![vector(d0)]);
    let block = cmtm.to_block_matrix(None).unwrap();
    let low = int_product(TURN_Z, int_skew(d0));
    assert_eq!(block.len(), 6);
    for i in 0..3 {
        for j in 0..3 {
            assert_eq!(block[i][j], r(TURN_Z[i][j]));
            assert_eq!(block[i + 3][j + 3], r(TURN_Z[i][j]));
            assert_eq!(block[i + 3][j], r(low[i][j]));
            assert_eq!(block[i][j + 3], r(0));
        }
    }
}

#[test]
fn cmtm_third_order_block_of_the_identity() {
    let d0 = [1, -2, 3];
    let d1 = [-4, 6, 2];
    let rotation = So3::<Residue>::identity();
    let cmtm = RotationalCmtm::from_so3_with_derivatives(&rotation, vec![vector(d0), vector(d1)]);
    let block = cmtm.to_block_matrix(None).unwrap();
    let hat0 = int_skew(d0);
    let hat1 = int_skew(d1);
    let square = int_product(hat0, hat0);
    assert_eq!(block.len(), 9);
    for i in 0..3 {
        for j in 0..3 {
            let unit = r(if i == j { 1 } else { 0 });
            assert_eq!(block[i][j], unit);
            assert_eq!(block[i + 3][j + 3], unit);
            assert_eq!(block[i + 6][j + 6], unit);
            assert_eq!(block[i + 3][j], r(hat0[i][j]));
            assert_eq!(block[i + 6][j + 3], r(hat0[i][j]));
            // the corner block is (hat1 + hat0^2) / 2
            assert_eq!(block[i + 6][j].mul(r(2)), r(hat1[i][j] + square[i][j]));
            assert_eq!(block[i][j + 3], r(0));
            assert_eq!(block[i][j + 6], r(0));
            assert_eq!(block[i + 3][j + 6], r(0));
        }
    }
}

#[test]
fn cmtm_fourth_order_follows_the_recurrence() {
    // 3 M(3) = M(2) H(0) + M(1) H(1) + M(0) H(2), with H(i) = hat(d_i / i!)
    let d = [[1, -2, 3], [-4, 6, 2], [6, 12, -18]];
    let base = matrix(TURN_X);
    let cmtm = RotationalCmtm::with_derivatives(base, d.iter().map(|v| vector(*v)).collect());
    let hats = [
        matrix(int_skew(d[0])),
        matrix(int_skew(d[1])),
        matrix(int_skew([3, 6, -9])),
    ];
    let table = cmtm.mat_elems(4);
    assert_eq!(table.len(), 4);
    assert_eq!(table[0], base);
    assert_eq!(table[1], matrix_product(&base, &hats[0]));
    for p in 1..4 {
        for i in 0..3 {
            for j in 0..3 {
                let mut total = r(0);
                for k in 0..p {
                    total = total.add(matrix_product(&table[p - 1 - k], &hats[k])[i][j]);
                }
                assert_eq!(table[p][i][j].mul(r(p as i32)), total);
            }
        }
    }
    let block = cmtm.to_block_matrix(None).unwrap();
    assert_eq!(block.len(), 12);
    for row in 0..12 {
        assert_eq!(block[row].len(), 12);
        for col in 0..12 {
            let expected = if col / 3 <= row / 3 {
                table[row / 3 - col / 3][row % 3][col % 3]
            } else {
                r(0)
            };
            assert_eq!(block[row][col], expected);
        }
    }
}

#[test]
fn cmtm_recursion_and_table_agree() {
    let d = [
        [1, -2, 3, 4, 0, -1],
        [-4, 6, 2, 1, 1, 1],
        [6, 12, -18, 0, 5, 7],
        [2, 3, 5, 7, 11, 13],
    ];
    let transform = Se3::from_parts(So3::from_matrix(matrix(TURN_Y)), vector([1, 2, 3]));
    let cmtm =
        SpatialCmtm::from_se3_with_derivatives(&transform, d.iter().map(|v| vector(*v)).collect());
    assert_eq!(cmtm.order(), 5);
    let table = cmtm.mat_elems(5);
    for p in 0..5 {
        assert_eq!(cmtm.mat_elem(p), table[p]);
    }
    assert_eq!(table[0], transform.adjoint());
    let lower = cmtm.to_block_matrix(Some(3)).unwrap();
    let full = cmtm.to_block_matrix(None).unwrap();
    assert_eq!(lower.len(), 18);
    assert_eq!(full.len(), 30);
    for row in 0..18 {
        for col in 0..18 {
            assert_eq!(lower[row][col], full[row][col]);
        }
    }
}

#[test]
fn cmtm_compose_widens_the_order() {
    let a = RotationalCmtm::with_derivatives(
        matrix(TURN_Z),
        vec![vector([1, 2, 3]), vector([4, 5, 6]), vector([7, 8, 9])],
    );
    let b = RotationalCmtm::with_derivatives(matrix(TURN_X), vec![vector([10, 20, 30])]);
    let expected = RotationalCmtm::with_derivatives(
        matrix(int_product(TURN_Z, TURN_X)),
        vec![vector([11, 22, 33]), vector([4, 5, 6]), vector([7, 8, 9])],
    );
    assert_eq!(a.compose(&b), expected);
    assert_eq!(a.compose(&b).order(), 4);
    let swapped = b.compose(&a);
    assert_eq!(swapped.order(), 4);
    assert_eq!(swapped.to_matrix(), matrix(int_product(TURN_X, TURN_Z)));
    assert_eq!(&a * &b, expected);
    assert_eq!(a.clone() * &b, expected);
    assert_eq!(&a * b.clone(), expected);
    assert_eq!(a.clone() * b.clone(), expected);
    assert_eq!(a.clone(), a);
}

#[test]
fn cmtm_group_laws_on_the_base() {
    let g = RotationalCmtm::with_derivatives(matrix(TURN_Z), vec![vector([1, 2, 3])]);
    let h = RotationalCmtm::from_so3(&So3::from_matrix(matrix(TURN_X)));
    let identity = RotationalCmtm::<Residue>::identity();
    assert_eq!(g.compose(&identity), g);
    let x = vector([2, -3, 5]);
    assert_eq!(g.compose(&h).apply_omega(x), g.apply_omega(h.apply_omega(x)));
    assert_eq!(h.order(), 1);
    assert_eq!(h.to_block_matrix(None).unwrap(), vec![
        vector(TURN_X[0]).to_vec(),
        vector(TURN_X[1]).to_vec(),
        vector(TURN_X[2]).to_vec(),
    ]);
}

#[test]
fn cmtm_block_of_a_composition_is_not_the_product_of_the_blocks() {
    // The composition adds the derivatives; the block matrices multiply only
    // where the skew matrix of the derivative commutes with the other base.
    let a = RotationalCmtm::with_derivatives(
        matrix([[1, 0, 0], [0, 1, 0], [0, 0, 1]]),
        vec![vector([1, 0, 0])],
    );
    let b = RotationalCmtm::with_derivatives(matrix(TURN_Z), vec![vector([0, 0, 0])]);
    let of_composition = a.compose(&b).to_block_matrix(None).unwrap();
    let block_a = a.to_block_matrix(None).unwrap();
    let block_b = b.to_block_matrix(None).unwrap();
    let x = vector([1, 0, 0, 0, 0, 0]);
    let times = |block: &Vec<Vec<Residue>>, v: [Residue; 6]| -> [Residue; 6] {
        let mut out = [r(0); 6];
        for i in 0..6 {
            for k in 0..6 {
                out[i] = out[i].add(block[i][k].mul(v[k]));
            }
        }
        out
    };
    assert_eq!(times(&of_composition, x), vector([0, 1, 0, 0, 0, 0]));
    assert_eq!(times(&block_a, times(&block_b, x)), vector([0, 1, 0, 0, 0, 1]));
    // at order 1 the two agree
    let first = a.compose(&b).to_block_matrix(Some(1)).unwrap();
    assert_eq!(first, vec![
        vector(TURN_Z[0]).to_vec(),
        vector(TURN_Z[1]).to_vec(),
        vector(TURN_Z[2]).to_vec(),
    ]);
}

#[test]
fn exact_compose_is_associative() {
    let a = Se3::from_parts(So3::from_matrix(matrix(TURN_Z)), vector([1, -2, 3]));
    let b = Se3::from_parts(So3::from_matrix(matrix(TURN_Y)), vector([-4, 5, 6]));
    let c = Se3::from_parts(So3::from_matrix(matrix(TURN_X)), vector([7, 8, -9]));
    assert_eq!(a.compose(&b).compose(&c), a.compose(&b.compose(&c)));
    assert_eq!(
        a.compose(&b).to_matrix(),
        matrix_product(&a.to_matrix(), &b.to_matrix())
    );
}
