use vstd::prelude::*;

use crate::problem::Problem;
use crate::solution::Solution;

verus! {

/// Probabilities are carried as fixed-point fractions of `PROB_ONE`:
/// `0` is probability zero, `PROB_ONE` is probability one.
pub const PROB_ONE: u64 = 1_000_000_000;

/// The cooling schedule of a simulated-annealing search. It owns a mutable
/// schedule state, initialized once by `initial_temp`, and two operations on
/// it: `acceptance_probability` gives the probability of accepting a
/// candidate even though it may be worse than the current solution, and
/// `cool` advances the state, reducing acceptance of worsening moves over
/// time.
pub trait Temperature<P: Problem> {
    type State;

    fn initial_temp(&self) -> Self::State;

    /// The probability, as a fraction of `PROB_ONE`, of accepting `new`
    /// against `current` under the schedule state `temp`.
    fn acceptance_probability<'i>(
        &self,
        new: &Solution<'i, P>,
        current: &Solution<'i, P>,
        temp: &Self::State,
    ) -> (r: u64)
        ensures
            r <= PROB_ONE,
    ;

    /// Advances the schedule state by one cooling step. Nothing is promised
    /// of the new state: real schedules (the default one divides a
    /// floating-point temperature) converge towards total rejection without
    /// ever reaching a final state, so the annealing driver bounds its own
    /// loop instead of asking the schedule to.
    fn cool(&self, temp: &mut Self::State);
}

} // verus!
