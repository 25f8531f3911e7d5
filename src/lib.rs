//! Decision logic of a bounded Levenberg-Marquardt least-squares fitter:
//! parameter binding and validation, the choice of finite-difference
//! scheme per Jacobian column, the stopping rules of the outer iteration,
//! and the placement of free parameters in the covariance matrix.
//! The floating-point arithmetic stays with the caller, which hands the
//! outcome of each numeric comparison over as a plain boolean.

pub mod types;
pub mod binding;
pub mod control;
pub mod covar;
pub mod jacobian;

pub use types::{MPError, MPSide, MPSuccess};
