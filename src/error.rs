//! The error type shared by every solver.

use vstd::prelude::*;

use crate::exact::FastTransportErrorCode;

verus! {

/// Why a solve was refused or failed.
#[derive(Debug)]
pub enum OTError {
    /// The weight vectors do not match the cost matrix: `dim_a` must equal
    /// the number of rows `dim_m_0` and `dim_b` the number of columns `dim_m_1`.
    WeightDimensionError { dim_a: usize, dim_b: usize, dim_m_0: usize, dim_m_1: usize },
    /// The exact solver finished with a status other than optimal.
    ExactOTError { source: FastTransportErrorCode },
    /// A configuration value is out of its domain.
    ArgError(String),
    /// Any other failure, with its description.
    Other(String),
}

/// `r` is an argument error that carries exactly the message `msg`.
pub open spec fn is_arg_error(r: Result<(), OTError>, msg: Seq<char>) -> bool {
    match r {
        Err(OTError::ArgError(m)) => m@ == msg,
        _ => false,
    }
}

} // verus!
