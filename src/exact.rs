//! Outcome codes of the exact (network-simplex) transport solver and the
//! argument checks that precede a call into it.

use vstd::prelude::*;

use crate::error::OTError;
use crate::checks::{
    check_iterations, check_shape, iterations_message, iterations_valid, shape_matches,
    spec_check_shape,
};
use crate::error::is_arg_error;

verus! {

/// Return codes of the network simplex solver; it reports success as `IsOptimal`.
#[derive(Clone, Copy, Debug, PartialEq, Eq, Structural)]
pub enum FastTransportErrorCode {
    /// No feasible flow exists for the problem.
    IsInfeasible,
    /// The problem is feasible and bounded: optimal primal and dual solutions were found.
    IsOptimal,
    /// The objective is unbounded (a directed cycle of negative total cost
    /// with infinite capacity exists).
    IsUnbounded,
    /// The solver stopped at its iteration cap.
    IsMaxIterReached,
}

/// The status that a raw integer code stands for; codes outside `0..=3`
/// are read as an exhausted iteration budget.
pub open spec fn spec_code_of(e: i32) -> FastTransportErrorCode {
    if e == 0 {
        FastTransportErrorCode::IsInfeasible
    } else if e == 1 {
        FastTransportErrorCode::IsOptimal
    } else if e == 2 {
        FastTransportErrorCode::IsUnbounded
    } else {
        FastTransportErrorCode::IsMaxIterReached
    }
}

/// The text shown for each status.
pub open spec fn spec_code_message(c: FastTransportErrorCode) -> Seq<char> {
    match c {
        FastTransportErrorCode::IsInfeasible => "Network simplex infeasible!"@,
        FastTransportErrorCode::IsOptimal => "Optimal solution found!"@,
        FastTransportErrorCode::IsUnbounded => "Network simplex unbounded!"@,
        FastTransportErrorCode::IsMaxIterReached => "Max iteration reached!"@,
    }
}

impl From<i32> for FastTransportErrorCode {
    fn from(e: i32) -> (r: Self) {
        match e {
            0 => FastTransportErrorCode::IsInfeasible,
            1 => FastTransportErrorCode::IsOptimal,
            2 => FastTransportErrorCode::IsUnbounded,
            _ => FastTransportErrorCode::IsMaxIterReached,
        }
    }
}

impl vstd::std_specs::convert::FromSpecImpl<i32> for FastTransportErrorCode {
    open spec fn obeys_from_spec() -> bool {
        true
    }

    open spec fn from_spec(e: i32) -> Self {
        spec_code_of(e)
    }
}

impl FastTransportErrorCode {
    /// Human-readable description of the status.
    pub fn message(&self) -> (r: String)
        ensures
            r@ == spec_code_message(*self),
    {
        match self {
            FastTransportErrorCode::IsInfeasible => "Network simplex infeasible!".to_owned(),
            FastTransportErrorCode::IsOptimal => "Optimal solution found!".to_owned(),
            FastTransportErrorCode::IsUnbounded => "Network simplex unbounded!".to_owned(),
            FastTransportErrorCode::IsMaxIterReached => "Max iteration reached!".to_owned(),
        }
    }
}

/// Turns a solver status into a result: success exactly on `IsOptimal`,
/// every other status is surfaced unchanged inside the error.
pub fn check_result(code: FastTransportErrorCode) -> (r: Result<(), OTError>)
    ensures
        code == FastTransportErrorCode::IsOptimal ==> r == Ok::<(), OTError>(()),
        code != FastTransportErrorCode::IsOptimal ==> r == Err::<(), OTError>(
            OTError::ExactOTError { source: code },
        ),
{
    match code {
        FastTransportErrorCode::IsOptimal => Ok(()),
        _ => Err(OTError::ExactOTError { source: code }),
    }
}

/// Reads the raw status code that the network simplex solver returned.
pub fn check_status(raw: i32) -> (r: Result<(), OTError>)
    ensures
        raw == 1 ==> r is Ok,
        raw != 1 ==> r == Err::<(), OTError>(OTError::ExactOTError { source: spec_code_of(raw) }),
{
    check_result(FastTransportErrorCode::from(raw))
}

/// The checks that the exact solver runs before any computation, in order:
/// the weight lengths against the cost matrix, then the iteration cap.
pub fn check_exact_args(
    dim_a: usize,
    dim_b: usize,
    dim_m_0: usize,
    dim_m_1: usize,
    iterations: i32,
) -> (r: Result<(), OTError>)
    ensures
        !shape_matches(dim_a, dim_b, dim_m_0, dim_m_1) ==> r == spec_check_shape(
            dim_a,
            dim_b,
            dim_m_0,
            dim_m_1,
        ),
        shape_matches(dim_a, dim_b, dim_m_0, dim_m_1) ==> (r is Ok <==> iterations_valid(
            iterations,
        )),
        shape_matches(dim_a, dim_b, dim_m_0, dim_m_1) && !iterations_valid(iterations)
            ==> is_arg_error(r, iterations_message()),
{
    check_shape(dim_a, dim_b, dim_m_0, dim_m_1)?;
    check_iterations(iterations)
}

} // verus!
