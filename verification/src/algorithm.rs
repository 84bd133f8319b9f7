use vstd::prelude::*;

use crate::cost::OrderedCost;
use crate::problem::Problem;
use crate::solution::Solution;

verus! {

/// The caller-supplied observer of a running search. The drivers invoke it
/// synchronously with the first solution they build and with every new best
/// solution they discover.
///
/// `seen()` is the abstract log of everything reported so far, as pairs of
/// candidate value and cost; `report` appends to it and does nothing else
/// that the drivers rely on.
pub trait Callback<P: Problem> {
    /// Every solution reported so far, oldest first. Unspecified unless
    /// the implementation overrides it.
    open spec fn seen(&self) -> Seq<(P::Solution, P::Cost)> {
        arbitrary()
    }

    fn report<'i>(&mut self, solution: &Solution<'i, P>)
        ensures
            final(self).seen() == old(self).seen().push(
                (solution.spec_value(), solution.spec_cost()),
            ),
    ;
}

/// A search driver. `solve` runs a search over `instance`, reporting to
/// `callback`, and returns the final solution. Every driver guarantees:
///
/// - the callback is invoked at least once, first with the solution built
///   from the driver's starting candidate;
/// - each further report either strictly improves on the previous one or
///   repeats it exactly, so the reported cost sequence never worsens;
/// - the last report is the returned solution;
/// - the returned solution is a local optimum of the driver's search graph:
///   no single move from it reaches a strictly better candidate.
pub trait Algorithm<P: Problem> {
    /// The candidate the search starts from.
    spec fn start_value(&self, instance: P::Instance) -> P::Solution;

    /// The single-step moves of the search graph the driver explores.
    spec fn is_move(&self, instance: P::Instance, from: P::Solution, to: P::Solution) -> bool;

    fn solve<'i, F: Callback<P>>(&self, instance: &'i P::Instance, callback: &mut F) -> (r: Solution<'i, P>)
        ensures
            r.spec_instance() == *instance,
            ({
                let s0 = old(callback).seen();
                let s1 = final(callback).seen();
                let start = self.start_value(*instance);
                &&& s1.len() > s0.len()
                &&& s1.subrange(0, s0.len() as int) == s0
                &&& s1[s0.len() as int] == (start, P::spec_cost(*instance, start))
                &&& (forall|i: int|
                    #![trigger s1[i]]
                    s0.len() < i < s1.len() ==> s1[i] == s1[i - 1] || s1[i].1.lt_spec(&s1[i - 1].1))
                &&& s1[s1.len() - 1] == (r.spec_value(), r.spec_cost())
            }),
            forall|v: P::Solution|
                #[trigger] self.is_move(*instance, r.spec_value(), v) ==> !P::spec_cost(
                    *instance,
                    v,
                ).lt_spec(&r.spec_cost()),
    ;
}

} // verus!
