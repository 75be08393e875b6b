use std::f64::consts::FRAC_PI_2;

use mathroborust::util::skew_symmetric;
use mathroborust::{Cmtm, ExpCoupling, RotationalCmtm, Scalar, Se3, So3};
use nalgebra::{DMatrix, Matrix3, Rotation3, SMatrix, SVector, Vector3};

/// Double-precision numbers as the scalar of the library.
#[derive(Clone, Copy, Debug, PartialEq)]
struct F(f64);

impl Scalar for F {
    fn zero_spec() -> Self {
        F(0.0)
    }

    fn one_spec() -> Self {
        F(1.0)
    }

    fn half_spec() -> Self {
        F(0.5)
    }

    fn from_count_spec(n: usize) -> Self {
        F(n as f64)
    }

    fn add_spec(self, rhs: Self) -> Self {
        F(self.0 + rhs.0)
    }

    fn sub_spec(self, rhs: Self) -> Self {
        F(self.0 - rhs.0)
    }

    fn mul_spec(self, rhs: Self) -> Self {
        F(self.0 * rhs.0)
    }

    fn div_spec(self, rhs: Self) -> Self {
        F(self.0 / rhs.0)
    }

    fn neg_spec(self) -> Self {
        F(-self.0)
    }

    fn zero() -> Self {
        F(0.0)
    }

    fn one() -> Self {
        F(1.0)
    }

    fn half() -> Self {
        F(0.5)
    }

    fn from_count(n: usize) -> Self {
        F(n as f64)
    }

    fn add(self, rhs: Self) -> Self {
        F(self.0 + rhs.0)
    }

    fn sub(self, rhs: Self) -> Self {
        F(self.0 - rhs.0)
    }

    fn mul(self, rhs: Self) -> Self {
        F(self.0 * rhs.0)
    }

    fn div(self, rhs: Self) -> Self {
        F(self.0 / rhs.0)
    }

    fn neg(self) -> Self {
        F(-self.0)
    }
}

fn wrap<const N: usize>(values: [f64; N]) -> [F; N] {
    values.map(F)
}

fn unwrap<const N: usize>(values: [F; N]) -> [f64; N] {
    values.map(|v| v.0)
}

fn wrap_matrix<const N: usize>(values: [[f64; N]; N]) -> [[F; N]; N] {
    values.map(wrap)
}

fn unwrap_matrix<const N: usize>(values: [[F; N]; N]) -> [[f64; N]; N] {
    values.map(unwrap)
}

fn rotation3_to_so3(rotation: &Rotation3<f64>) -> So3<F> {
    let m = rotation.matrix();
    let mut array = [[0.0_f64; 3]; 3];
    for r in 0..3 {
        for c in 0..3 {
            array[r][c] = m[(r, c)];
        }
    }
    So3::from_matrix(wrap_matrix(array))
}

fn so3_to_rotation3(rotation: &So3<F>) -> Rotation3<f64> {
    let m = unwrap_matrix(rotation.to_matrix());
    Rotation3::from_matrix_unchecked(Matrix3::new(
        m[0][0], m[0][1], m[0][2], m[1][0], m[1][1], m[1][2], m[2][0], m[2][1], m[2][2],
    ))
}

/// The rotation about `axis` by `angle`; the identity for an axis of length zero.
fn from_axis_angle(axis: [f64; 3], angle: f64) -> So3<F> {
    let axis_vector = Vector3::new(axis[0], axis[1], axis[2]);
    if axis_vector.norm() == 0.0 {
        return So3::identity();
    }
    rotation3_to_so3(&Rotation3::new(axis_vector.normalize() * angle))
}

/// The exponential of a twist: the angle and the rotation are measured here,
/// the matrix is assembled by the library.
fn se3_exp(twist: [f64; 6], a: Option<f64>) -> [[f64; 4]; 4] {
    let scale = a.unwrap_or(1.0);
    let omega = Vector3::new(twist[0] * scale, twist[1] * scale, twist[2] * scale);
    let theta = omega.norm();
    let rotation = rotation3_to_so3(&Rotation3::new(omega));
    let coupling = if theta == 0.0 {
        ExpCoupling::ZeroAngle
    } else if theta.abs() < 1e-12 {
        ExpCoupling::SmallAngle
    } else {
        ExpCoupling::FullAngle {
            first: F((1.0 - theta.cos()) / (theta * theta)),
            second: F((theta - theta.sin()) / (theta * theta * theta)),
        }
    };
    unwrap_matrix(Se3::exp(wrap(twist), a.map(F), &rotation, coupling))
}

fn skew(v: [f64; 3]) -> Matrix3<f64> {
    let m = unwrap_matrix(skew_symmetric(&wrap(v)));
    Matrix3::new(
        m[0][0], m[0][1], m[0][2], m[1][0], m[1][1], m[1][2], m[2][0], m[2][1], m[2][2],
    )
}

fn block_entries(block: &[Vec<F>]) -> Vec<f64> {
    block.iter().flat_map(|row| row.iter().map(|v| v.0)).collect()
}

fn approx_eq(a: &[f64], b: &[f64], tol: f64) {
    assert_eq!(a.len(), b.len());
    for (x, y) in a.iter().zip(b.iter()) {
        assert!((x - y).abs() < tol, "expected {y}, got {x}");
    }
}

fn approx_eq_matrix(a: &[[f64; 3]; 3], b: &[[f64; 3]; 3], tol: f64) {
    for r in 0..3 {
        for c in 0..3 {
            let x = a[r][c];
            let y = b[r][c];
            assert!((x - y).abs() < tol, "expected {y}, got {x} at ({r},{c})");
        }
    }
}

fn approx_eq_matrix4(a: &[[f64; 4]; 4], b: &[[f64; 4]; 4], tol: f64) {
    for r in 0..4 {
        for c in 0..4 {
            let x = a[r][c];
            let y = b[r][c];
            assert!((x - y).abs() < tol, "expected {y}, got {x} at ({r},{c})");
        }
    }
}

#[test]
fn so3_rotation_matches_expected() {
    let rotation = from_axis_angle([0.0, 0.0, 1.0], FRAC_PI_2);
    let rotated = unwrap(rotation.apply(wrap([1.0, 0.0, 0.0])));
    approx_eq(&rotated, &[0.0, 1.0, 0.0], 1e-12);
}

#[test]
fn se3_translation_and_rotation_combined() {
    let rotation = from_axis_angle([0.0, 1.0, 0.0], FRAC_PI_2);
    let transform = Se3::from_parts(rotation, wrap([1.0, 2.0, 3.0]));
    let applied = unwrap(transform.apply(wrap([1.0, 0.0, 0.0])));
    approx_eq(&applied, &[1.0, 2.0, 2.0], 1e-12);
}

#[test]
fn cmtm_adjoint_matches_reference() {
    let rotation = from_axis_angle([0.0, 0.0, 1.0], FRAC_PI_2);
    let transform = Se3::from_parts(rotation, wrap([0.5, 0.25, -0.75]));
    let adjoint = Cmtm::from_se3(&transform);

    let twist = [0.1, 0.2, 0.3, 1.0, 2.0, 3.0];
    let transformed = unwrap(adjoint.apply_twist(wrap(twist)));

    let rotation_matrix = so3_to_rotation3(transform.rotation());
    let rotation_matrix = rotation_matrix.matrix();
    let translation = unwrap(transform.translation());
    let skew = skew(translation);

    let mut expected_matrix = SMatrix::<f64, 6, 6>::zeros();
    for r in 0..3 {
        for c in 0..3 {
            expected_matrix[(r, c)] = rotation_matrix[(r, c)];
            expected_matrix[(r + 3, c + 3)] = rotation_matrix[(r, c)];
            expected_matrix[(r + 3, c)] = (skew * rotation_matrix)[(r, c)];
        }
    }

    let expected: [f64; 6] = (expected_matrix * SVector::<f64, 6>::from_row_slice(&twist)).into();

    let group_adjoint = unwrap_matrix(transform.adjoint());
    for r in 0..6 {
        for c in 0..6 {
            assert!((group_adjoint[r][c] - expected_matrix[(r, c)]).abs() < 1e-12);
        }
    }

    approx_eq(&transformed, &expected, 1e-10);
}

#[test]
fn cmtm_from_so3_matches_rotation_block() {
    let rotation = from_axis_angle([0.0, 0.0, 1.0], FRAC_PI_2);
    let adjoint = RotationalCmtm::from_so3(&rotation);

    let omega = [0.25, 0.5, -1.0];
    let rotated = unwrap(adjoint.apply_omega(wrap(omega)));
    let expected = unwrap(rotation.apply(wrap(omega)));

    approx_eq(&rotated, &expected, 1e-12);
    approx_eq_matrix(
        &unwrap_matrix(adjoint.to_matrix()),
        &unwrap_matrix(rotation.to_matrix()),
        1e-12,
    );
}

#[test]
fn cmtm_block_matrix_handles_second_order() {
    let rotation = So3::<F>::identity();
    let derivatives = vec![wrap([0.1, -0.2, 0.3])];
    let adjoint = RotationalCmtm::from_so3_with_derivatives(&rotation, derivatives);

    let block = adjoint.to_block_matrix(None).unwrap();
    assert_eq!(block.len(), 6);

    let mut expected = DMatrix::<f64>::zeros(6, 6);
    let base = so3_to_rotation3(&rotation);
    let base = base.matrix();
    let hat = skew([0.1, -0.2, 0.3]);
    for r in 0..3 {
        for c in 0..3 {
            expected[(r, c)] = base[(r, c)];
            expected[(r + 3, c + 3)] = base[(r, c)];
            expected[(r + 3, c)] = hat[(r, c)];
        }
    }

    for r in 0..6 {
        assert_eq!(block[r].len(), 6);
        for c in 0..6 {
            assert!((block[r][c].0 - expected[(r, c)]).abs() < 1e-12);
        }
    }
}

#[test]
fn cmtm_block_matrix_handles_third_order() {
    let rotation = So3::<F>::identity();
    let w0 = [0.05, -0.1, 0.2];
    let w1 = [-0.02, 0.04, -0.08];
    let adjoint = RotationalCmtm::from_so3_with_derivatives(&rotation, vec![wrap(w0), wrap(w1)]);

    let block = adjoint.to_block_matrix(None).unwrap();
    assert_eq!(block.len(), 9);

    let mut expected = DMatrix::<f64>::zeros(9, 9);
    let base = so3_to_rotation3(&rotation);
    let base = base.matrix();
    let hat0 = skew(w0);
    let hat1 = skew(w1);
    let mat2 = (hat1 + hat0 * hat0) / 2.0;

    for r in 0..3 {
        for c in 0..3 {
            expected[(r, c)] = base[(r, c)];
            expected[(r + 3, c + 3)] = base[(r, c)];
            expected[(r + 6, c + 6)] = base[(r, c)];

            expected[(r + 3, c)] = hat0[(r, c)];
            expected[(r + 6, c + 3)] = hat0[(r, c)];
            expected[(r + 6, c)] = mat2[(r, c)];
        }
    }

    for r in 0..9 {
        assert_eq!(block[r].len(), 9);
        for c in 0..9 {
            assert!((block[r][c].0 - expected[(r, c)]).abs() < 1e-12);
        }
    }
}

#[test]
fn so3_quaternion_roundtrip_matches_matrix() {
    let rotation = from_axis_angle([0.0, 0.0, 1.0], FRAC_PI_2);
    let unit = nalgebra::UnitQuaternion::from_rotation_matrix(&so3_to_rotation3(&rotation));
    let quaternion = [unit.w, unit.i, unit.j, unit.k];
    let mut quat = nalgebra::Quaternion::new(
        quaternion[0],
        quaternion[1],
        quaternion[2],
        quaternion[3],
    );
    if quat.norm() != 0.0 {
        quat = quat.normalize();
    }
    let rebuilt =
        rotation3_to_so3(&nalgebra::UnitQuaternion::from_quaternion(quat).to_rotation_matrix());

    let original_matrix = unwrap_matrix(rotation.to_matrix());
    let rebuilt_matrix = unwrap_matrix(rebuilt.to_matrix());

    approx_eq_matrix(&original_matrix, &rebuilt_matrix, 1e-12);
}

#[test]
fn so3_rotation_vector_log_exp_roundtrip() {
    let vector = [0.2, -0.1, 0.3];
    let rotation = rotation3_to_so3(&Rotation3::new(Vector3::new(vector[0], vector[1], vector[2])));
    let axis = so3_to_rotation3(&rotation).scaled_axis();
    let recovered = [axis.x, axis.y, axis.z];
    approx_eq(&recovered, &vector, 1e-12);
}

#[test]
fn hat_and_vee_are_inverses() {
    let vector = [0.25, -0.5, 1.25];
    let hat = So3::hat(wrap(vector));
    let recovered = unwrap(So3::vee(hat));
    approx_eq(&recovered, &vector, 1e-12);
}

#[test]
fn se3_hat_and_vee_are_inverses() {
    let twist = [0.1, -0.2, 0.3, 1.0, -2.0, 3.0];
    let hat = Se3::hat(wrap(twist));
    let recovered = unwrap(Se3::vee(hat));
    approx_eq(&recovered, &twist, 1e-12);
}

#[test]
fn so3_mul_matches_compose() {
    let r1 = from_axis_angle([1.0, 0.0, 0.0], FRAC_PI_2);
    let r2 = from_axis_angle([0.0, 1.0, 0.0], FRAC_PI_2);

    let composed = r1.compose(&r2);
    let multiplied = r1 * r2;

    approx_eq_matrix(
        &unwrap_matrix(composed.to_matrix()),
        &unwrap_matrix(multiplied.to_matrix()),
        1e-12,
    );
    let vector = wrap([1.0, 2.0, 3.0]);
    approx_eq(&unwrap(composed.apply(vector)), &unwrap(multiplied.apply(vector)), 1e-12);
}

#[test]
fn se3_mul_matches_compose() {
    let r1 = from_axis_angle([0.0, 0.0, 1.0], FRAC_PI_2);
    let t1 = [0.5, -0.25, 0.75];
    let g1 = Se3::from_parts(r1, wrap(t1));

    let r2 = from_axis_angle([0.0, 1.0, 0.0], FRAC_PI_2);
    let t2 = [-0.3, 0.6, 0.9];
    let g2 = Se3::from_parts(r2, wrap(t2));

    let composed = g1.compose(&g2);
    let multiplied = g1 * g2;

    approx_eq_matrix4(
        &unwrap_matrix(composed.to_matrix()),
        &unwrap_matrix(multiplied.to_matrix()),
        1e-12,
    );
    let point = wrap([0.25, -0.5, 1.0]);
    approx_eq(&unwrap(composed.apply(point)), &unwrap(multiplied.apply(point)), 1e-12);
}

#[test]
fn cmtm_mul_matches_compose() {
    let r1 = from_axis_angle([0.0, 0.0, 1.0], FRAC_PI_2);
    let r2 = from_axis_angle([0.0, 1.0, 0.0], FRAC_PI_2);

    let c1 = RotationalCmtm::from_so3_with_derivatives(&r1, vec![wrap([0.1, -0.2, 0.3])]);
    let c2 = RotationalCmtm::from_so3_with_derivatives(&r2, vec![wrap([-0.05, 0.15, -0.25])]);

    let composed = c1.compose(&c2);
    let multiplied = c1 * c2;

    let composed_block = block_entries(&composed.to_block_matrix(None).unwrap());
    let multiplied_block = block_entries(&multiplied.to_block_matrix(None).unwrap());

    assert_eq!(composed_block.len(), 36);
    assert_eq!(multiplied_block.len(), 36);
    for (x, y) in composed_block.iter().zip(multiplied_block.iter()) {
        assert!((x - y).abs() < 1e-12, "expected {y}, got {x}");
    }
}

#[test]
fn se3_exp_with_pure_translation_matches_expected() {
    let twist = [0.0, 0.0, 0.0, 1.0, 2.0, 3.0];
    let exp = se3_exp(twist, None);
    let mut expected = [[0.0_f64; 4]; 4];
    expected[0][0] = 1.0;
    expected[1][1] = 1.0;
    expected[2][2] = 1.0;
    expected[3][3] = 1.0;
    expected[0][3] = 1.0;
    expected[1][3] = 2.0;
    expected[2][3] = 3.0;

    approx_eq_matrix4(&exp, &expected, 1e-12);
}

#[test]
fn se3_from_matrix_round_trip() {
    let rotation = from_axis_angle([0.0, 0.0, 1.0], FRAC_PI_2);
    let transform = Se3::from_parts(rotation.clone(), wrap([0.25, -0.5, 0.75]));
    let matrix = transform.to_matrix();
    let rebuilt = Se3::from_matrix(matrix);

    approx_eq_matrix4(
        &unwrap_matrix(matrix),
        &unwrap_matrix(rebuilt.to_matrix()),
        1e-12,
    );
    approx_eq_matrix(
        &unwrap_matrix(rotation.to_matrix()),
        &unwrap_matrix(rebuilt.rotation().to_matrix()),
        1e-12,
    );
    approx_eq(
        &unwrap(transform.translation()),
        &unwrap(rebuilt.translation()),
        1e-12,
    );
}

#[test]
fn so3_compose_with_inverse_is_identity() {
    let g = from_axis_angle([1.0, 2.0, 3.0], 0.7);
    let product = unwrap_matrix(g.compose(&g.inverse()).to_matrix());
    let identity = unwrap_matrix(So3::<F>::identity().to_matrix());
    approx_eq_matrix(&product, &identity, 1e-12);
    approx_eq_matrix(
        &unwrap_matrix(g.compose(&So3::identity()).to_matrix()),
        &unwrap_matrix(g.to_matrix()),
        1e-12,
    );
}

#[test]
fn se3_compose_with_inverse_is_identity() {
    let g = Se3::from_parts(from_axis_angle([1.0, -1.0, 0.5], 1.1), wrap([0.5, -0.25, 0.75]));
    let product = unwrap_matrix(g.compose(&g.inverse()).to_matrix());
    let identity = unwrap_matrix(Se3::<F>::identity().to_matrix());
    approx_eq_matrix4(&product, &identity, 1e-12);
}

#[test]
fn se3_apply_of_composition_matches_nested_application() {
    let a = Se3::from_parts(from_axis_angle([0.0, 0.0, 1.0], 0.3), wrap([0.5, -0.25, 0.75]));
    let b = Se3::from_parts(from_axis_angle([0.0, 1.0, 0.0], -1.2), wrap([-0.3, 0.6, 0.9]));
    let x = wrap([0.25, -0.5, 1.0]);
    approx_eq(
        &unwrap(a.compose(&b).apply(x)),
        &unwrap(a.apply(b.apply(x))),
        1e-12,
    );
}

#[test]
fn se3_exp_quarter_turn_matches_closed_form() {
    // For w = theta * z and v = x the translation is [sin theta, 1 - cos theta, 0] / theta.
    let exp = se3_exp([0.0, 0.0, FRAC_PI_2, 1.0, 0.0, 0.0], None);
    let expected = [
        [0.0, -1.0, 0.0, 1.0 / FRAC_PI_2],
        [1.0, 0.0, 0.0, 1.0 / FRAC_PI_2],
        [0.0, 0.0, 1.0, 0.0],
        [0.0, 0.0, 0.0, 1.0],
    ];
    approx_eq_matrix4(&exp, &expected, 1e-12);
}

#[test]
fn se3_exp_scale_multiplies_the_twist() {
    let scaled = se3_exp([0.0, 0.0, 0.5, 1.0, 0.0, 0.0], Some(2.0));
    let plain = se3_exp([0.0, 0.0, 1.0, 2.0, 0.0, 0.0], None);
    approx_eq_matrix4(&scaled, &plain, 1e-12);
    assert!((plain[0][3] - 2.0 * 1.0_f64.sin()).abs() < 1e-12);
    assert!((plain[1][3] - 2.0 * (1.0 - 1.0_f64.cos())).abs() < 1e-12);
}

#[test]
fn se3_exp_small_angle_uses_the_first_order_series() {
    let exp = se3_exp([0.0, 0.0, 1e-13, 1.0, 0.0, 0.0], None);
    assert_eq!(exp[0][3], 1.0);
    assert_eq!(exp[1][3], 0.5e-13);
    assert_eq!(exp[2][3], 0.0);
    assert_eq!(exp[3], [0.0, 0.0, 0.0, 1.0]);
}

#[test]
fn cmtm_second_order_block_with_a_rotated_base() {
    let rotation = from_axis_angle([0.0, 0.0, 1.0], 0.3);
    let d0 = [0.1, -0.2, 0.3];
    let cmtm = RotationalCmtm::from_so3_with_derivatives(&rotation, vec![wrap(d0)]);
    let block = cmtm.to_block_matrix(Some(2)).unwrap();
    let base = so3_to_rotation3(&rotation);
    let base = base.matrix();
    let low = base * skew(d0);
    for r in 0..3 {
        for c in 0..3 {
            assert!((block[r][c].0 - base[(r, c)]).abs() < 1e-12);
            assert!((block[r + 3][c + 3].0 - base[(r, c)]).abs() < 1e-12);
            assert!((block[r + 3][c].0 - low[(r, c)]).abs() < 1e-12);
            assert_eq!(block[r][c + 3].0, 0.0);
        }
    }
    let first = cmtm.to_block_matrix(Some(1)).unwrap();
    assert_eq!(first.len(), 3);
    assert!(cmtm.to_block_matrix(Some(3)).is_err());
    assert!(cmtm.to_block_matrix(Some(0)).is_err());
}

#[test]
fn cmtm_third_order_divides_by_factorials() {
    // M(3) of the identity with d = [0, 0, d2] is hat(d2 / 2!) / 3.
    let rotation = So3::<F>::identity();
    let d2 = [0.6, -1.2, 1.8];
    let cmtm = RotationalCmtm::from_so3_with_derivatives(
        &rotation,
        vec![wrap([0.0; 3]), wrap([0.0; 3]), wrap(d2)],
    );
    let block = cmtm.to_block_matrix(None).unwrap();
    assert_eq!(block.len(), 12);
    let expected = skew([0.1, -0.2, 0.3]);
    for r in 0..3 {
        for c in 0..3 {
            assert!((block[r + 9][c].0 - expected[(r, c)]).abs() < 1e-12);
            assert_eq!(block[r + 6][c].0, 0.0);
            assert_eq!(block[r + 3][c].0, 0.0);
        }
    }
}
