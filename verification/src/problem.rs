use vstd::prelude::*;

use crate::cost::ExactClone;
use crate::cost::OrderedCost;

verus! {

/// A problem definition supplied by the caller: the fixed data a search is
/// run against (`Instance`), a candidate representation (`Solution`), an
/// ordered cost measure (`Cost`), and the cost function that ties a
/// candidate to its cost under a given instance.
pub trait Problem: Sized {
    type Instance;

    type Solution;

    type Cost: OrderedCost;

    /// The cost of `value` under `instance`, as a mathematical function.
    /// Unspecified unless the implementation overrides it; implementations
    /// that the verifier reads override it so that `cost` can be tied to it.
    open spec fn spec_cost(instance: Self::Instance, value: Self::Solution) -> Self::Cost {
        arbitrary()
    }

    fn cost(instance: &Self::Instance, value: &Self::Solution) -> (c: Self::Cost)
        ensures
            c == Self::spec_cost(*instance, *value),
    ;
}

/// A capability that produces the starting candidate for a search from an
/// instance.
pub trait InitialSolution<P: Problem> {
    /// The candidate this capability builds from `instance`. Unspecified
    /// unless the implementation overrides it.
    open spec fn spec_get(&self, instance: P::Instance) -> P::Solution {
        arbitrary()
    }

    fn get(&self, instance: &P::Instance) -> (r: P::Solution)
        ensures
            r == self.spec_get(*instance),
    ;
}

/// An initial-solution capability that hands out one fixed candidate value,
/// whatever the instance. The simulated-annealing driver uses it to seed its
/// final hill-climbing pass with the best candidate found so far.
pub struct FixedInitial<V> {
    pub value: V,
}

impl<P: Problem> InitialSolution<P> for FixedInitial<P::Solution> where P::Solution: ExactClone {
    open spec fn spec_get(&self, instance: P::Instance) -> P::Solution {
        self.value
    }

    fn get(&self, instance: &P::Instance) -> (r: P::Solution) {
        self.value.exact_clone()
    }
}

} // verus!
