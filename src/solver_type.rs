//! Which solver a dispatching entry point runs.

use vstd::prelude::*;

verus! {

/// The balanced entropic solvers.
#[derive(Clone, Copy, Debug, PartialEq, Eq, Structural)]
pub enum BregmanSolverType {
    Sinkhorn,
    Greenkhorn,
}

/// The unbalanced entropic solvers.
#[derive(Clone, Copy, Debug, PartialEq, Eq, Structural)]
pub enum UnbalancedSolverType {
    Sinkhorn,
    SinkhornStabilized,
    SinkhornRegScaling,
}

} // verus!
