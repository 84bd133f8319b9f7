use vstd::prelude::*;

use crate::algorithm::Algorithm;
use crate::algorithm::Callback;
use crate::cost::ExactClone;
use crate::cost::OrderedCost;
use crate::neighborhood::is_local_optimum;
use crate::neighborhood::MaybeNeighbor;
use crate::neighborhood::Neighborhood;
use crate::neighborhood::StrictImprovement;
use crate::problem::InitialSolution;
use crate::problem::Problem;
use crate::solution::Solution;

verus! {

/// Greedy local search: starting from the initial capability's candidate,
/// repeatedly moves to any neighbor whose cost strictly improves on the
/// current one, until none exists. The terminal state is a local optimum.
pub struct HillClimbing<I, N> {
    pub initial: I,
    pub neighborhood: N,
}

impl<I, N> HillClimbing<I, N> {
    /// Runs the climb. Beyond the shared `Algorithm` guarantees, this
    /// entry point promises that every report after the first strictly
    /// improves on the one before it, and that a climb whose starting
    /// candidate already is a local optimum reports exactly once and
    /// returns that candidate unchanged.
    pub fn solve<'i, P, F>(&self, instance: &'i P::Instance, callback: &mut F) -> (r: Solution<
        'i,
        P,
    >) where
        P: Problem,
        I: InitialSolution<P>,
        N: Neighborhood<P>,
        F: Callback<P>,
        P::Solution: ExactClone,
        P::Cost: ExactClone,

        ensures
            r.spec_instance() == *instance,
            ({
                let s0 = old(callback).seen();
                let s1 = final(callback).seen();
                let start = self.initial.spec_get(*instance);
                &&& s1.len() > s0.len()
                &&& s1.subrange(0, s0.len() as int) == s0
                &&& s1[s0.len() as int] == (start, P::spec_cost(*instance, start))
                &&& (forall|i: int|
                    #![trigger s1[i]]
                    s0.len() < i < s1.len() ==> s1[i].1.lt_spec(&s1[i - 1].1))
                &&& s1[s1.len() - 1] == (r.spec_value(), r.spec_cost())
            }),
            is_local_optimum::<P, N>(self.neighborhood, *instance, r.spec_value()),
            is_local_optimum::<P, N>(self.neighborhood, *instance, self.initial.spec_get(*instance))
                ==> ({
                let s0 = old(callback).seen();
                let s1 = final(callback).seen();
                let start = self.initial.spec_get(*instance);
                &&& s1 == s0.push((start, P::spec_cost(*instance, start)))
                &&& r.spec_value() == start
                &&& r.spec_cost() == P::spec_cost(*instance, start)
            }),
    {
        let ghost s0 = callback.seen();
        let mut current = Solution::new(instance, self.initial.get(instance));
        callback.report(&current);
        let ghost start = current.spec_value();
        let ghost start_cost = current.spec_cost();
        loop
            invariant
                s0 == old(callback).seen(),
                current.spec_instance() == *instance,
                callback.seen().len() > s0.len(),
                callback.seen().subrange(0, s0.len() as int) == s0,
                callback.seen()[s0.len() as int] == (start, start_cost),
                forall|i: int|
                    #![trigger callback.seen()[i]]
                    s0.len() < i < callback.seen().len() ==> callback.seen()[i].1.lt_spec(
                        &callback.seen()[i - 1].1,
                    ),
                callback.seen()[callback.seen().len() - 1] == (
                    current.spec_value(),
                    current.spec_cost(),
                ),
                start == self.initial.spec_get(*instance),
                start_cost == P::spec_cost(*instance, start),
                is_local_optimum::<P, N>(self.neighborhood, *instance, start) ==> callback.seen()
                    == s0.push((start, start_cost)) && current.spec_value() == start
                    && current.spec_cost() == start_cost,
            decreases current.spec_cost().rank(),
        {
            let probe = current.clone();
            let mut criterion = StrictImprovement { current: &current };
            match self.neighborhood.find(probe, &mut criterion) {
                MaybeNeighbor::Found(s) => {
                    proof {
                        use_type_invariant(&s);
                        use_type_invariant(&current);
                        s.spec_cost().lemma_lt_well_founded(&current.spec_cost());
                        if is_local_optimum::<P, N>(self.neighborhood, *instance, start) {
                            assert(self.neighborhood.is_neighbor(
                                *instance,
                                start,
                                s.spec_value(),
                            ));
                            assert(false);
                        }
                    }
                    current = s;
                    callback.report(&current);
                },
                MaybeNeighbor::NotFound(_) => {
                    proof {
                        use_type_invariant(&current);
                    }
                    return current;
                },
            }
        }
    }
}

impl<P, I, N> Algorithm<P> for HillClimbing<I, N> where
    P: Problem,
    I: InitialSolution<P>,
    N: Neighborhood<P>,
    P::Solution: ExactClone,
    P::Cost: ExactClone,
 {
    open spec fn start_value(&self, instance: P::Instance) -> P::Solution {
        self.initial.spec_get(instance)
    }

    open spec fn is_move(&self, instance: P::Instance, from: P::Solution, to: P::Solution) -> bool {
        self.neighborhood.is_neighbor(instance, from, to)
    }

    fn solve<'i, F: Callback<P>>(&self, instance: &'i P::Instance, callback: &mut F) -> (r:
        Solution<'i, P>) {
        let r = self.solve(instance, callback);
        proof {
            use_type_invariant(&r);
        }
        r
    }
}

} // verus!
