//! Argument checks of the Gaussian sampler used to build examples.

use vstd::prelude::*;

verus! {

/// Why a sample could not be drawn.
#[derive(Debug)]
pub enum DistributionError {
    /// The request is malformed; the message says how.
    Oops(String),
    /// The numerical routine failed.
    Other(String),
}

/// `r` is a malformed-request error with exactly the message `msg`.
pub open spec fn is_oops(r: Result<(), DistributionError>, msg: Seq<char>) -> bool {
    match r {
        Err(DistributionError::Oops(m)) => m@ == msg,
        _ => false,
    }
}

/// Checks a request for `n` samples of a Gaussian with a mean of `mean_len`
/// entries and a `cov_rows x cov_cols` covariance, in order: `n > 0`, both
/// non-empty, then the covariance fits the mean in at least one dimension.
pub fn check_gauss_params(n: i32, mean_len: usize, cov_rows: usize, cov_cols: usize) -> (r: Result<
    (),
    DistributionError,
>)
    ensures
        n <= 0 ==> is_oops(r, "n is not greater than zero"@),
        n > 0 && (mean_len == 0 || cov_rows as int * cov_cols as int == 0) ==> is_oops(
            r,
            "zero length mean or covariance"@,
        ),
        n > 0 && mean_len > 0 && cov_rows as int * cov_cols as int > 0 && cov_rows != mean_len
            && cov_cols != mean_len ==> is_oops(
            r,
            "covariance dimensions do not match mean dimensions"@,
        ),
        r is Ok <==> n > 0 && mean_len > 0 && cov_rows > 0 && cov_cols > 0 && (cov_rows
            == mean_len || cov_cols == mean_len),
{
    if n <= 0 {
        return Err(DistributionError::Oops("n is not greater than zero".to_owned()));
    }
    if mean_len == 0 || cov_rows == 0 || cov_cols == 0 {
        assert(cov_rows == 0 || cov_cols == 0 ==> cov_rows as int * cov_cols as int == 0)
            by (nonlinear_arith);
        return Err(DistributionError::Oops("zero length mean or covariance".to_owned()));
    }
    assert(cov_rows as int * cov_cols as int > 0) by (nonlinear_arith)
        requires
            cov_rows > 0,
            cov_cols > 0,
    ;
    if cov_rows != mean_len && cov_cols != mean_len {
        return Err(
            DistributionError::Oops("covariance dimensions do not match mean dimensions".to_owned()),
        );
    }
    Ok(())
}

} // verus!
