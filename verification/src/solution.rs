use vstd::prelude::*;

use crate::cost::ExactClone;
use crate::problem::Problem;

verus! {

/// A candidate value bound to the problem instance it was built from,
/// together with its cost under that instance. The cost is computed once,
/// at construction, and is always consistent with the value: that is this
/// type's invariant.
pub struct Solution<'i, P: Problem> {
    instance: &'i P::Instance,
    value: P::Solution,
    cost: P::Cost,
}

impl<'i, P: Problem> Solution<'i, P> {
    /// The instance this solution was built from.
    pub closed spec fn spec_instance(&self) -> P::Instance {
        *self.instance
    }

    /// The candidate value.
    pub closed spec fn spec_value(&self) -> P::Solution {
        self.value
    }

    /// The cached cost.
    pub closed spec fn spec_cost(&self) -> P::Cost {
        self.cost
    }

    /// The cached cost agrees with the value under the instance's cost
    /// function. Every `Solution` satisfies this; `use_type_invariant`
    /// recovers it.
    #[verifier::type_invariant]
    pub open spec fn inv(&self) -> bool {
        self.spec_cost() == P::spec_cost(self.spec_instance(), self.spec_value())
    }

    pub fn new(instance: &'i P::Instance, value: P::Solution) -> (r: Self)
        ensures
            r.spec_instance() == *instance,
            r.spec_value() == value,
            r.spec_cost() == P::spec_cost(*instance, value),
    {
        let cost = P::cost(instance, &value);
        Solution { instance, value, cost }
    }

    pub fn value(&self) -> (r: &P::Solution)
        ensures
            *r == self.spec_value(),
    {
        &self.value
    }

    pub fn cost(&self) -> (r: &P::Cost)
        ensures
            *r == self.spec_cost(),
    {
        &self.cost
    }

    pub fn instance(&self) -> (r: &'i P::Instance)
        ensures
            *r == self.spec_instance(),
    {
        self.instance
    }

    /// Give up this solution, yielding back the owned candidate value and
    /// the instance reference, for handing off to another search stage.
    pub fn destroy(self) -> (r: (P::Solution, &'i P::Instance))
        ensures
            r.0 == self.spec_value(),
            *r.1 == self.spec_instance(),
    {
        let Solution { instance, value, cost: _ } = self;
        (value, instance)
    }
}

impl<'i, P: Problem> Clone for Solution<'i, P> where P::Solution: ExactClone, P::Cost: ExactClone {
    /// A deep copy of the value and the cost, sharing the instance
    /// reference.
    fn clone(&self) -> (r: Self)
        ensures
            r == *self,
    {
        proof {
            use_type_invariant(self);
        }
        Solution { instance: self.instance, value: self.value.exact_clone(), cost: self.cost.exact_clone() }
    }
}

} // verus!
