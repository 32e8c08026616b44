//! Building blocks shared by a family of derivative-free minimization
//! routines: the shift helpers that rotate a line search's working points,
//! the row-major matrix that backs a Nelder-Mead simplex, and the
//! validation of an iteration cap.

pub mod limits;
pub mod matrix;
pub mod shift;

pub use limits::effective_max_iterations;
pub use matrix::Matrix;
pub use shift::{mov3, shft2, shft3};
