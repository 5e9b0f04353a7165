//! Batch evaluation of one model over an ordered collection of sites.
//!
//! Each site is evaluated on its own, so the evaluations are spread over the
//! worker pool of rayon; the output keeps the order of the input.

use vstd::prelude::*;
use rayon::iter::IndexedParallelIterator;
use rayon::iter::ParallelIterator;
use rayon::iter::IntoParallelRefIterator;

verus! {

/// `out` holds, position by position, a result of `eval` on the matching
/// element of `sites`.
pub open spec fn evaluated_in_order<S, O, F: Fn(&S) -> O>(
    sites: Seq<S>,
    eval: F,
    out: Seq<O>,
) -> bool {
    &&& out.len() == sites.len()
    &&& forall|i: int| 0 <= i < sites.len() ==> #[trigger] eval.ensures((&sites[i],), out[i])
}

/// `eval` gives one result for each input: two calls on equal inputs agree.
pub open spec fn is_functional<S, O, F: Fn(&S) -> O>(eval: F) -> bool {
    forall|s: &S, a: O, b: O| eval.ensures((s,), a) && eval.ensures((s,), b) ==> a == b
}

/// Relies on rayon's `IndexedParallelIterator::collect_into_vec` applied to
/// `par_iter().map(eval)`: `eval` runs on each element, and the vector holds
/// the results in the order of the elements they came from.
#[verifier::external_body]
fn par_map_in_order<S: Sync, O: Send, F: Fn(&S) -> O + Sync>(sites: &Vec<S>, eval: &F) -> (r:
    Vec<O>)
    requires
        forall|i: int| 0 <= i < sites.len() ==> #[trigger] eval.requires((&sites[i],)),
    ensures
        evaluated_in_order(sites@, *eval, r@),
{
    let mut r = Vec::new();
    sites.par_iter().map(eval).collect_into_vec(&mut r);
    r
}

/// Evaluates `eval` on every site, spreading the work over the worker pool.
/// The output has one element per site, and its element `i` is the result
/// for site `i`; an empty input gives an empty output.
pub fn evaluate_all<S: Sync, O: Send, F: Fn(&S) -> O + Sync>(sites: &Vec<S>, eval: &F) -> (r:
    Vec<O>)
    requires
        forall|i: int| 0 <= i < sites.len() ==> #[trigger] eval.requires((&sites[i],)),
    ensures
        evaluated_in_order(sites@, *eval, r@),
{
    if sites.len() == 0 {
        return Vec::new();
    }
    par_map_in_order(sites, eval)
}

/// Batch evaluation is deterministic: where each evaluation is a function of
/// its own site alone, any two outputs for the same sites are equal, however
/// the work was spread over the workers.
pub proof fn lemma_evaluate_all_deterministic<S, O, F: Fn(&S) -> O>(
    sites: Seq<S>,
    eval: F,
    r1: Seq<O>,
    r2: Seq<O>,
)
    requires
        is_functional(eval),
        evaluated_in_order(sites, eval, r1),
        evaluated_in_order(sites, eval, r2),
    ensures
        r1 == r2,
{
    assert forall|i: int| 0 <= i < r1.len() implies r1[i] == r2[i] by {
        assert(eval.ensures((&sites[i],), r1[i]));
        assert(eval.ensures((&sites[i],), r2[i]));
    }
    assert(r1 =~= r2);
}

} // verus!
