//! The checks that every solver runs, in a fixed order, before any
//! numerical work: weight lengths against the cost matrix, then the
//! configuration values.

use vstd::prelude::*;

use crate::error::{is_arg_error, OTError};

verus! {

/// The weight vectors fit the cost matrix: one source weight per row and
/// one target weight per column.
pub open spec fn shape_matches(dim_a: usize, dim_b: usize, dim_m_0: usize, dim_m_1: usize) -> bool {
    dim_a == dim_m_0 && dim_b == dim_m_1
}

/// The outcome of the shape check.
pub open spec fn spec_check_shape(dim_a: usize, dim_b: usize, dim_m_0: usize, dim_m_1: usize) -> Result<
    (),
    OTError,
> {
    if shape_matches(dim_a, dim_b, dim_m_0, dim_m_1) {
        Ok(())
    } else {
        Err(OTError::WeightDimensionError { dim_a, dim_b, dim_m_0, dim_m_1 })
    }
}

/// An iteration cap is usable only when it is positive.
pub open spec fn iterations_valid(iterations: i32) -> bool {
    iterations > 0
}

pub open spec fn iterations_message() -> Seq<char> {
    "Iterations not a valid value. Must be > 0"@
}

pub open spec fn reg_message() -> Seq<char> {
    "Regularization term <= 0"@
}

pub open spec fn reg_m_message() -> Seq<char> {
    "Marginal regularization term <= 0"@
}

/// Checks that `dim_a` source weights and `dim_b` target weights fit a
/// `dim_m_0 x dim_m_1` cost matrix; the error reports all four lengths.
pub fn check_shape(dim_a: usize, dim_b: usize, dim_m_0: usize, dim_m_1: usize) -> (r: Result<
    (),
    OTError,
>)
    ensures
        r == spec_check_shape(dim_a, dim_b, dim_m_0, dim_m_1),
        r is Ok <==> dim_a == dim_m_0 && dim_b == dim_m_1,
{
    if dim_a != dim_m_0 || dim_b != dim_m_1 {
        return Err(OTError::WeightDimensionError { dim_a, dim_b, dim_m_0, dim_m_1 });
    }
    Ok(())
}

/// Checks that an iteration cap is positive.
pub fn check_iterations(iterations: i32) -> (r: Result<(), OTError>)
    ensures
        iterations_valid(iterations) ==> r is Ok,
        !iterations_valid(iterations) ==> is_arg_error(r, iterations_message()),
{
    if iterations <= 0 {
        return Err(OTError::ArgError("Iterations not a valid value. Must be > 0".to_owned()));
    }
    Ok(())
}

/// The checks of the balanced entropic solvers, in order: shape, then
/// `reg > 0` (as decided by the caller in `reg_positive`), then the iteration cap.
pub fn check_regularized_args(
    dim_a: usize,
    dim_b: usize,
    dim_m_0: usize,
    dim_m_1: usize,
    reg_positive: bool,
    iterations: i32,
) -> (r: Result<(), OTError>)
    ensures
        !shape_matches(dim_a, dim_b, dim_m_0, dim_m_1) ==> r == spec_check_shape(
            dim_a,
            dim_b,
            dim_m_0,
            dim_m_1,
        ),
        shape_matches(dim_a, dim_b, dim_m_0, dim_m_1) && !reg_positive ==> is_arg_error(
            r,
            reg_message(),
        ),
        shape_matches(dim_a, dim_b, dim_m_0, dim_m_1) && reg_positive && !iterations_valid(
            iterations,
        ) ==> is_arg_error(r, iterations_message()),
        r is Ok <==> shape_matches(dim_a, dim_b, dim_m_0, dim_m_1) && reg_positive
            && iterations_valid(iterations),
{
    check_shape(dim_a, dim_b, dim_m_0, dim_m_1)?;
    if !reg_positive {
        return Err(OTError::ArgError("Regularization term <= 0".to_owned()));
    }
    check_iterations(iterations)
}

/// The checks of the unbalanced solver, in order: shape, `reg > 0`,
/// `reg_m > 0`, then the iteration cap.
pub fn check_unbalanced_args(
    dim_a: usize,
    dim_b: usize,
    dim_m_0: usize,
    dim_m_1: usize,
    reg_positive: bool,
    reg_m_positive: bool,
    iterations: i32,
) -> (r: Result<(), OTError>)
    ensures
        !shape_matches(dim_a, dim_b, dim_m_0, dim_m_1) ==> r == spec_check_shape(
            dim_a,
            dim_b,
            dim_m_0,
            dim_m_1,
        ),
        shape_matches(dim_a, dim_b, dim_m_0, dim_m_1) && !reg_positive ==> is_arg_error(
            r,
            reg_message(),
        ),
        shape_matches(dim_a, dim_b, dim_m_0, dim_m_1) && reg_positive && !reg_m_positive
            ==> is_arg_error(r, reg_m_message()),
        shape_matches(dim_a, dim_b, dim_m_0, dim_m_1) && reg_positive && reg_m_positive
            && !iterations_valid(iterations) ==> is_arg_error(r, iterations_message()),
        r is Ok <==> shape_matches(dim_a, dim_b, dim_m_0, dim_m_1) && reg_positive
            && reg_m_positive && iterations_valid(iterations),
{
    check_shape(dim_a, dim_b, dim_m_0, dim_m_1)?;
    if !reg_positive {
        return Err(OTError::ArgError("Regularization term <= 0".to_owned()));
    }
    if !reg_m_positive {
        return Err(OTError::ArgError("Marginal regularization term <= 0".to_owned()));
    }
    check_iterations(iterations)
}

/// Whatever the lengths, the shape check succeeds exactly when the source
/// length equals the row count and the target length equals the column
/// count, and a refusal names all four lengths.
pub proof fn lemma_check_shape_rejects_mismatch(
    dim_a: usize,
    dim_b: usize,
    dim_m_0: usize,
    dim_m_1: usize,
)
    ensures
        (dim_a != dim_m_0 || dim_b != dim_m_1) ==> spec_check_shape(dim_a, dim_b, dim_m_0, dim_m_1)
            == Err::<(), OTError>(OTError::WeightDimensionError { dim_a, dim_b, dim_m_0, dim_m_1 }),
        (dim_a == dim_m_0 && dim_b == dim_m_1) ==> spec_check_shape(dim_a, dim_b, dim_m_0, dim_m_1)
            is Ok,
{
}

} // verus!
