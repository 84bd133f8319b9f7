//! A small, problem-agnostic local-search optimization framework.
//!
//! A caller plugs in a problem definition — candidate representation, cost
//! function, initial candidate, neighborhood enumeration — and runs either a
//! plain hill-climbing search or a simulated-annealing search that escapes
//! local optima by probabilistically accepting worsening moves and then
//! re-converges, by a final hill-climbing pass, to a true local optimum.

mod algorithm;
mod cost;
mod hill_climbing;
mod neighborhood;
mod problem;
mod random;
mod simulated_annealing;
mod solution;
mod temperature;

pub use algorithm::Algorithm;
pub use algorithm::Callback;
pub use cost::ExactClone;
pub use cost::OrderedCost;
pub use hill_climbing::HillClimbing;
pub use neighborhood::is_local_optimum;
pub use neighborhood::AcceptanceCriterion;
pub use neighborhood::MaybeNeighbor;
pub use neighborhood::Neighborhood;
pub use neighborhood::StrictImprovement;
pub use problem::FixedInitial;
pub use problem::InitialSolution;
pub use problem::Problem;
pub use random::CreateRandom;
pub use random::CreateThreadRandom;
pub use random::RandomStream;
pub use random::ThreadRandom;
pub use simulated_annealing::MetropolisCriterion;
pub use simulated_annealing::SimulatedAnnealing;
pub use solution::Solution;
pub use temperature::Temperature;
pub use temperature::PROB_ONE;
