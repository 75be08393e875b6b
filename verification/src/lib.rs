//! Rigid-body motion groups over an abstract scalar.
//!
//! The crate holds three groups and what they share:
//!
//! - [`so3::So3`], the rotations of space, as 3 by 3 matrices;
//! - [`se3::Se3`], the rigid transforms, as a rotation and a translation;
//! - [`cmtm::GenericCmtm`], the composite motion transformations: a base
//!   matrix with the tangent vectors of its time derivatives, which expand
//!   into one block matrix that holds the transformation and its derivatives
//!   up to a requested order.
//!
//! Every number is a [`scalar::Scalar`]. The contract of each operation says
//! which scalar operations produced its result, over the matrix model of
//! [`matrix`]; that holds of any scalar, rounding or not. The group laws in
//! [`laws`] are proved for an [`scalar::ExactScalar`], a commutative ring, of
//! which [`residue::Residue`] is one.

pub mod algebra;
pub mod cmtm;
pub mod laws;
pub mod lie;
pub mod matrix;
pub mod residue;
pub mod ring;
pub mod scalar;
pub mod se3;
pub mod so3;
pub mod sums;
pub mod util;

pub use cmtm::{Cmtm, Cmtm6, CmtmError, GenericCmtm, RotationalCmtm, SpatialCmtm};
pub use scalar::{ExactScalar, Scalar};
pub use se3::{ExpCoupling, Se3};
pub use so3::So3;
