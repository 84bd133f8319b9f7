use vstd::prelude::*;

use crate::algorithm::Algorithm;
use crate::algorithm::Callback;
use crate::cost::ExactClone;
use crate::cost::OrderedCost;
use crate::hill_climbing::HillClimbing;
use crate::neighborhood::is_local_optimum;
use crate::neighborhood::AcceptanceCriterion;
use crate::neighborhood::MaybeNeighbor;
use crate::neighborhood::Neighborhood;
use crate::problem::FixedInitial;
use crate::problem::InitialSolution;
use crate::problem::Problem;
use crate::random::CreateRandom;
use crate::random::RandomStream;
use crate::solution::Solution;
use crate::temperature::Temperature;

verus! {

/// The probabilistic acceptance criterion of simulated annealing: a
/// candidate is accepted when its cost strictly improves on the current
/// solution's, or when a fresh uniform draw does not exceed the schedule's
/// acceptance probability for it. Not exact, since the outcome depends on
/// the random stream; but a strictly improving candidate is accepted
/// unconditionally, without consulting the schedule or the stream
/// (`must_accept`).
pub struct MetropolisCriterion<'c, 'i, P: Problem, A: Temperature<P>, S: RandomStream> {
    pub current: &'c Solution<'i, P>,
    pub heat: &'c A,
    pub temp: &'c A::State,
    pub random: S,
}

impl<'c, 'i, P: Problem, A: Temperature<P>, S: RandomStream> AcceptanceCriterion<
    P,
> for MetropolisCriterion<'c, 'i, P, A, S> {
    open spec fn must_accept(&self, instance: P::Instance, value: P::Solution) -> bool {
        P::spec_cost(instance, value).lt_spec(&self.current.spec_cost())
    }

    fn test<'j>(&mut self, candidate: &Solution<'j, P>) -> (r: bool) {
        proof {
            use_type_invariant(candidate);
        }
        if candidate.cost().lt(self.current.cost()) {
            true
        } else {
            let p = self.heat.acceptance_probability(candidate, self.current, self.temp);
            let draw = self.random.next_unit();
            p >= draw
        }
    }
}

/// Simulated annealing: explores the neighborhood under the probabilistic
/// Metropolis criterion, cooling the schedule after every accepted move and
/// tracking the best solution seen; once the neighborhood is exhausted even
/// under the relaxed criterion, re-converges by a hill-climbing pass seeded
/// with the best candidate, so the returned solution is a true local
/// optimum.
pub struct SimulatedAnnealing<I, N, R, A> {
    pub initial: I,
    pub neighborhood: N,
    pub create_random: R,
    pub heat: A,
    /// Upper bound on the number of moves the annealing phase may accept.
    /// Every verified loop must prove termination, and a cooling schedule
    /// cannot supply the measure: real ones converge towards total
    /// rejection without ever reaching a final state. So the driver owns
    /// the bound; set it as large as the search warrants. When it is
    /// exhausted, the annealing phase stops and the final hill-climbing
    /// pass still makes the result a local optimum.
    pub max_steps: u64,
}

impl<I, N, R, A> SimulatedAnnealing<I, N, R, A> {
    /// Runs the annealing search. Beyond the shared `Algorithm`
    /// guarantees, this entry point promises that at least two reports are
    /// made (the final hill-climbing pass re-reports the best solution it
    /// starts from), and that a neighborhood without any moves leaves the
    /// initial solution untouched: it is reported twice and returned.
    pub fn solve<'i, P, F>(&self, instance: &'i P::Instance, callback: &mut F) -> (r: Solution<
        'i,
        P,
    >) where
        P: Problem,
        I: InitialSolution<P>,
        N: Neighborhood<P>,
        R: CreateRandom,
        A: Temperature<P>,
        F: Callback<P>,
        P::Solution: ExactClone,
        P::Cost: ExactClone,

        ensures
            r.spec_instance() == *instance,
            ({
                let s0 = old(callback).seen();
                let s1 = final(callback).seen();
                let start = self.initial.spec_get(*instance);
                &&& s1.len() >= s0.len() + 2
                &&& s1.subrange(0, s0.len() as int) == s0
                &&& s1[s0.len() as int] == (start, P::spec_cost(*instance, start))
                &&& (forall|i: int|
                    #![trigger s1[i]]
                    s0.len() < i < s1.len() ==> s1[i] == s1[i - 1] || s1[i].1.lt_spec(&s1[i - 1].1))
                &&& s1[s1.len() - 1] == (r.spec_value(), r.spec_cost())
            }),
            is_local_optimum::<P, N>(self.neighborhood, *instance, r.spec_value()),
            (forall|f: P::Solution, t: P::Solution|
                !(#[trigger] self.neighborhood.is_neighbor(*instance, f, t))) ==> ({
                let s0 = old(callback).seen();
                let s1 = final(callback).seen();
                let start = self.initial.spec_get(*instance);
                let start_pair = (start, P::spec_cost(*instance, start));
                &&& s1 == s0.push(start_pair).push(start_pair)
                &&& r.spec_value() == start
                &&& r.spec_cost() == P::spec_cost(*instance, start)
            }),
    {
        let ghost s0 = callback.seen();
        let mut best = Solution::new(instance, self.initial.get(instance));
        callback.report(&best);
        let ghost start = best.spec_value();
        let ghost start_cost = best.spec_cost();
        let mut current = best.clone();
        let mut random = self.create_random.create();
        let mut temp = self.heat.initial_temp();
        let mut remaining = self.max_steps;
        loop
            invariant
                s0 == old(callback).seen(),
                current.spec_instance() == *instance,
                best.spec_instance() == *instance,
                callback.seen().len() > s0.len(),
                callback.seen().subrange(0, s0.len() as int) == s0,
                callback.seen()[s0.len() as int] == (start, start_cost),
                forall|i: int|
                    #![trigger callback.seen()[i]]
                    s0.len() < i < callback.seen().len() ==> callback.seen()[i].1.lt_spec(
                        &callback.seen()[i - 1].1,
                    ),
                callback.seen()[callback.seen().len() - 1] == (
                    best.spec_value(),
                    best.spec_cost(),
                ),
                start == self.initial.spec_get(*instance),
                start_cost == P::spec_cost(*instance, start),
                (forall|f: P::Solution, t: P::Solution|
                    !(#[trigger] self.neighborhood.is_neighbor(*instance, f, t)))
                    ==> callback.seen() == s0.push((start, start_cost)) && best.spec_value()
                    == start && best.spec_cost() == start_cost,
            ensures
                s0 == old(callback).seen(),
                best.spec_instance() == *instance,
                callback.seen().len() > s0.len(),
                callback.seen().subrange(0, s0.len() as int) == s0,
                callback.seen()[s0.len() as int] == (start, start_cost),
                forall|i: int|
                    #![trigger callback.seen()[i]]
                    s0.len() < i < callback.seen().len() ==> callback.seen()[i].1.lt_spec(
                        &callback.seen()[i - 1].1,
                    ),
                callback.seen()[callback.seen().len() - 1] == (
                    best.spec_value(),
                    best.spec_cost(),
                ),
                (forall|f: P::Solution, t: P::Solution|
                    !(#[trigger] self.neighborhood.is_neighbor(*instance, f, t)))
                    ==> callback.seen() == s0.push((start, start_cost)) && best.spec_value()
                    == start && best.spec_cost() == start_cost,
            decreases remaining,
        {
            if remaining == 0 {
                break;
            }
            let probe = current.clone();
            let mut criterion = MetropolisCriterion {
                current: &current,
                heat: &self.heat,
                temp: &temp,
                random,
            };
            let found = self.neighborhood.find(probe, &mut criterion);
            random = criterion.random;
            match found {
                MaybeNeighbor::Found(s) => {
                    proof {
                        use_type_invariant(&s);
                        use_type_invariant(&best);
                        if forall|f: P::Solution, t: P::Solution|
                            !(#[trigger] self.neighborhood.is_neighbor(*instance, f, t)) {
                            assert(self.neighborhood.is_neighbor(
                                *instance,
                                current.spec_value(),
                                s.spec_value(),
                            ));
                            assert(false);
                        }
                    }
                    current = s;
                    if current.cost().lt(best.cost()) {
                        best = current.clone();
                        callback.report(&best);
                    }
                    self.heat.cool(&mut temp);
                    remaining = remaining - 1;
                },
                MaybeNeighbor::NotFound(_) => {
                    break;
                },
            }
        }
        let ghost s_mid = callback.seen();
        proof {
            use_type_invariant(&best);
        }
        let ghost best_value = best.spec_value();
        let ghost best_cost = best.spec_cost();
        let (value, _rest) = best.destroy();
        let finisher = HillClimbing { initial: FixedInitial { value }, neighborhood: &self.neighborhood };
        let r = finisher.solve(instance, callback);
        proof {
            use_type_invariant(&r);
            let s1 = callback.seen();
            assert forall|v: P::Solution| #[trigger] self.neighborhood.is_neighbor(
                *instance,
                r.spec_value(),
                v,
            ) implies !P::spec_cost(*instance, v).lt_spec(
                &P::spec_cost(*instance, r.spec_value()),
            ) by {
                assert(<&N as Neighborhood<P>>::is_neighbor(
                    &finisher.neighborhood,
                    *instance,
                    r.spec_value(),
                    v,
                ));
            }
            assert(s1.subrange(0, s_mid.len() as int)[s_mid.len() - 1] == s1[s_mid.len() - 1]);
            assert(s1[s_mid.len() as int] == (best_value, best_cost));
            assert forall|i: int| #![trigger s1[i]] s0.len() < i < s1.len() implies (s1[i] == s1[i
                - 1] || s1[i].1.lt_spec(&s1[i - 1].1)) by {
                if i < s_mid.len() {
                    assert(s1.subrange(0, s_mid.len() as int)[i] == s1[i]);
                    assert(s1.subrange(0, s_mid.len() as int)[i - 1] == s1[i - 1]);
                    assert(s_mid[i].1.lt_spec(&s_mid[i - 1].1));
                } else if i == s_mid.len() {
                    assert(s1[i] == s1[i - 1]);
                }
            }
            assert(s1.subrange(0, s0.len() as int) =~= s_mid.subrange(0, s0.len() as int));
            assert(s1.subrange(0, s_mid.len() as int)[s0.len() as int] == s1[s0.len() as int]);
            if forall|f: P::Solution, t: P::Solution|
                !(#[trigger] self.neighborhood.is_neighbor(*instance, f, t)) {
                assert forall|v: P::Solution| #[trigger] <&N as Neighborhood<P>>::is_neighbor(
                    &finisher.neighborhood,
                    *instance,
                    best_value,
                    v,
                ) implies !P::spec_cost(*instance, v).lt_spec(
                    &P::spec_cost(*instance, best_value),
                ) by {
                    assert(self.neighborhood.is_neighbor(*instance, best_value, v));
                    assert(false);
                }
                assert(is_local_optimum::<P, &N>(finisher.neighborhood, *instance, best_value));
                assert(s1 =~= s0.push((start, start_cost)).push((start, start_cost)));
            }
        }
        r
    }
}

impl<P, I, N, R, A> Algorithm<P> for SimulatedAnnealing<I, N, R, A> where
    P: Problem,
    I: InitialSolution<P>,
    N: Neighborhood<P>,
    R: CreateRandom,
    A: Temperature<P>,
    P::Solution: ExactClone,
    P::Cost: ExactClone,
 {
    open spec fn start_value(&self, instance: P::Instance) -> P::Solution {
        self.initial.spec_get(instance)
    }

    open spec fn is_move(&self, instance: P::Instance, from: P::Solution, to: P::Solution) -> bool {
        self.neighborhood.is_neighbor(instance, from, to)
    }

    fn solve<'i, F: Callback<P>>(&self, instance: &'i P::Instance, callback: &mut F) -> (r:
        Solution<'i, P>) {
        let r = self.solve(instance, callback);
        proof {
            use_type_invariant(&r);
        }
        r
    }
}

} // verus!
