//! Source and target weights: an empty vector stands for the uniform
//! distribution over the matching dimension of the cost matrix.

use vstd::prelude::*;

verus! {

/// `n` copies of `w`.
pub open spec fn spec_uniform<T>(n: nat, w: T) -> Seq<T> {
    Seq::new(n, |i: int| w)
}

/// The weights to solve with: `weights` itself when it holds any, else `n`
/// copies of `uniform` (the caller passes `1/n` there).
pub fn resolve_weights<T: Copy>(weights: Vec<T>, n: usize, uniform: T) -> (r: Vec<T>)
    ensures
        weights@.len() == 0 ==> r@ == spec_uniform(n as nat, uniform),
        weights@.len() > 0 ==> r@ == weights@,
{
    if weights.len() > 0 {
        return weights;
    }
    let mut out: Vec<T> = Vec::new();
    let mut i: usize = 0;
    while i < n
        invariant
            0 <= i <= n,
            out@ == spec_uniform(i as nat, uniform),
        decreases n - i,
    {
        out.push(uniform);
        i += 1;
        assert(out@ =~= spec_uniform(i as nat, uniform));
    }
    out
}

/// When no weights are given, the resolved ones number exactly `n` and are
/// all equal: the uniform distribution over the `n` indices.
pub proof fn lemma_empty_weights_are_uniform<T>(n: nat, uniform: T)
    ensures
        spec_uniform(n, uniform).len() == n,
        forall|i: int, j: int|
            0 <= i < n && 0 <= j < n ==> #[trigger] spec_uniform(n, uniform)[i]
                == #[trigger] spec_uniform(n, uniform)[j],
{
}

} // verus!
