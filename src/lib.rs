//! Building blocks of entropic-regularized optimal transport solvers:
//! argument and shape validation, solver status codes, the iteration
//! control of the scaling loops, weight defaults, and flag reductions over
//! 2-D grids.

pub mod checks;
pub mod distribution;
pub mod error;
pub mod exact;
pub mod logical;
pub mod schedule;
pub mod solver_type;
pub mod weights;

pub use checks::check_shape;
pub use error::OTError;
pub use exact::FastTransportErrorCode;
pub use solver_type::{BregmanSolverType, UnbalancedSolverType};
