use vstd::prelude::*;

use crate::cost::OrderedCost;
use crate::problem::Problem;
use crate::solution::Solution;

verus! {

/// The tagged result of a neighborhood probe: either an accepted neighbor,
/// or the unmodified current solution, signalling that the neighborhood is
/// exhausted under the given acceptance criterion.
pub enum MaybeNeighbor<'i, P: Problem> {
    Found(Solution<'i, P>),
    NotFound(Solution<'i, P>),
}

/// An acceptance predicate a search driver hands to a neighborhood probe:
/// it decides, candidate by candidate, whether the search would move to
/// that candidate.
///
/// A criterion may draw on mutable state (the probabilistic criterion of
/// simulated annealing advances a random stream on every test). When
/// `is_exact()` holds, the criterion is a pure function of the candidate,
/// given by `spec_accepts`, and testing changes nothing.
pub trait AcceptanceCriterion<P: Problem>: Sized {
    /// Whether `test` returns exactly `spec_accepts`, without changing the
    /// criterion. Nothing is promised of a criterion unless it overrides
    /// this.
    open spec fn is_exact(&self) -> bool {
        false
    }

    /// The candidates an exact criterion accepts. Unspecified unless the
    /// implementation overrides it.
    open spec fn spec_accepts(&self, instance: P::Instance, value: P::Solution) -> bool {
        arbitrary()
    }

    /// The candidates this criterion is bound to accept, whatever its
    /// mutable state: `test` returns true on every one of them. Nothing is
    /// promised unless the implementation overrides this.
    open spec fn must_accept(&self, instance: P::Instance, value: P::Solution) -> bool {
        false
    }

    fn test<'i>(&mut self, candidate: &Solution<'i, P>) -> (r: bool)
        ensures
            old(self).is_exact() ==> *final(self) == *old(self) && r == old(self).spec_accepts(
                candidate.spec_instance(),
                candidate.spec_value(),
            ),
            old(self).must_accept(candidate.spec_instance(), candidate.spec_value()) ==> r,
    ;
}

/// A neighborhood capability supplied by the caller: it defines the search
/// graph (`is_neighbor`) and, given a current solution and an acceptance
/// criterion, produces either a neighbor that the criterion accepted or the
/// report that none exists.
pub trait Neighborhood<P: Problem> {
    /// The single-step moves of the search graph: `to` can be reached from
    /// `from` in one move. Unspecified unless the implementation overrides
    /// it.
    open spec fn is_neighbor(&self, instance: P::Instance, from: P::Solution, to: P::Solution) -> bool {
        arbitrary()
    }

    fn find<'i, F: AcceptanceCriterion<P>>(
        &self,
        current: Solution<'i, P>,
        criterion: &mut F,
    ) -> (r: MaybeNeighbor<'i, P>)
        ensures
            match r {
                MaybeNeighbor::Found(s) => {
                    &&& s.spec_instance() == current.spec_instance()
                    &&& self.is_neighbor(current.spec_instance(), current.spec_value(), s.spec_value())
                    &&& (old(criterion).is_exact() ==> old(criterion).spec_accepts(
                        current.spec_instance(),
                        s.spec_value(),
                    ))
                },
                MaybeNeighbor::NotFound(s) => {
                    &&& s == current
                    &&& (old(criterion).is_exact() ==> forall|v: P::Solution|
                        #[trigger] self.is_neighbor(current.spec_instance(), current.spec_value(), v)
                            ==> !old(criterion).spec_accepts(current.spec_instance(), v))
                },
            },
    ;
}

/// `value` is a local optimum of the search graph that `neighborhood`
/// defines over `instance`: no single move from it reaches a strictly
/// better candidate.
pub open spec fn is_local_optimum<P: Problem, N: Neighborhood<P>>(
    neighborhood: N,
    instance: P::Instance,
    value: P::Solution,
) -> bool {
    forall|v: P::Solution|
        #[trigger] neighborhood.is_neighbor(instance, value, v) ==> !P::spec_cost(
            instance,
            v,
        ).lt_spec(&P::spec_cost(instance, value))
}

/// The acceptance criterion of plain hill climbing: a candidate is accepted
/// exactly when its cost strictly improves on the current solution's cost.
pub struct StrictImprovement<'c, 'i, P: Problem> {
    pub current: &'c Solution<'i, P>,
}

impl<'c, 'i, P: Problem> AcceptanceCriterion<P> for StrictImprovement<'c, 'i, P> {
    open spec fn is_exact(&self) -> bool {
        true
    }

    open spec fn spec_accepts(&self, instance: P::Instance, value: P::Solution) -> bool {
        P::spec_cost(instance, value).lt_spec(&self.current.spec_cost())
    }

    open spec fn must_accept(&self, instance: P::Instance, value: P::Solution) -> bool {
        P::spec_cost(instance, value).lt_spec(&self.current.spec_cost())
    }

    fn test<'j>(&mut self, candidate: &Solution<'j, P>) -> (r: bool) {
        proof {
            use_type_invariant(candidate);
        }
        candidate.cost().lt(self.current.cost())
    }
}

impl<'n, P: Problem, N: Neighborhood<P>> Neighborhood<P> for &'n N {
    open spec fn is_neighbor(&self, instance: P::Instance, from: P::Solution, to: P::Solution) -> bool {
        (**self).is_neighbor(instance, from, to)
    }

    fn find<'i, F: AcceptanceCriterion<P>>(
        &self,
        current: Solution<'i, P>,
        criterion: &mut F,
    ) -> (r: MaybeNeighbor<'i, P>) {
        (**self).find(current, criterion)
    }
}

} // verus!
