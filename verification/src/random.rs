use vstd::prelude::*;

use rand::RngExt;

use crate::temperature::PROB_ONE;

verus! {

/// A stream of random draws, as the simulated-annealing driver consumes
/// them: one draw per probed candidate, uniform over `0 ..= PROB_ONE`.
/// Nothing beyond the range can be promised of a random value.
pub trait RandomStream {
    fn next_unit(&mut self) -> (r: u64)
        ensures
            r <= PROB_ONE,
    ;
}

/// A factory for random streams. The simulated-annealing driver creates one
/// fresh stream per `solve` call, so reproducibility is entirely under the
/// caller's control.
pub trait CreateRandom {
    type Stream: RandomStream;

    fn create(&self) -> Self::Stream;
}

#[verifier::external_type_specification]
#[verifier::external_body]
pub struct ExThreadRng(rand::rngs::ThreadRng);

/// A random stream drawn from the thread-local generator of the `rand`
/// crate.
pub struct ThreadRandom {
    rng: rand::rngs::ThreadRng,
}

impl ThreadRandom {
    /// Relies on `rand::rng`: a handle to the thread-local generator. It
    /// can panic if the operating system's entropy source fails at the
    /// first per-thread seeding — an environmental condition, like running
    /// out of memory, that no input brings about.
    #[verifier::external_body]
    pub fn new() -> (r: ThreadRandom) {
        ThreadRandom { rng: rand::rng() }
    }

    /// Relies on rand's `RngExt::random_range`: a random value from the
    /// given inclusive range, so never above `PROB_ONE`. The range is never
    /// empty, so the only panic left is an entropy-source failure during
    /// reseeding — environmental, as for `new`.
    #[verifier::external_body]
    fn draw(&mut self) -> (r: u64)
        ensures
            r <= PROB_ONE,
    {
        self.rng.random_range(0..=PROB_ONE)
    }
}

impl RandomStream for ThreadRandom {
    fn next_unit(&mut self) -> (r: u64) {
        self.draw()
    }
}

/// Creates `ThreadRandom` streams.
pub struct CreateThreadRandom;

impl CreateRandom for CreateThreadRandom {
    type Stream = ThreadRandom;

    fn create(&self) -> ThreadRandom {
        ThreadRandom::new()
    }
}

} // verus!
