//! Which learner offers which kind of entry point.
use vstd::prelude::*;

verus! {

/// The kinds of entry point a learner may offer.
#[derive(Clone, Copy, Debug, PartialEq, Eq, Structural)]
pub enum Capability {
    /// Learns from one transition at a time, as it happens.
    Online,
    /// Chooses actions: a target and a behaviour policy.
    Control,
    /// Answers value queries without learning.
    Prediction,
    /// Learns from a whole episode at once.
    Batch,
}

/// The learners of this library.
#[derive(Clone, Copy, Debug, PartialEq, Eq, Structural)]
pub enum Learner {
    QLearning,
    SARSA,
    QLambda,
    GreedyGQ,
    GradientMC,
}

impl Learner {
    pub open spec fn supports_spec(self, c: Capability) -> bool {
        match self {
            Learner::QLearning | Learner::SARSA => c is Online || c is Control,
            Learner::QLambda | Learner::GreedyGQ => !(c is Batch),
            Learner::GradientMC => c is Batch || c is Prediction,
        }
    }

    /// Whether the learner offers the entry points of kind `c`.
    pub fn supports(&self, c: Capability) -> (r: bool)
        ensures
            r == self.supports_spec(c),
    {
        match self {
            Learner::QLearning | Learner::SARSA => match c {
                Capability::Online | Capability::Control => true,
                _ => false,
            },
            Learner::QLambda | Learner::GreedyGQ => match c {
                Capability::Batch => false,
                _ => true,
            },
            Learner::GradientMC => match c {
                Capability::Batch | Capability::Prediction => true,
                _ => false,
            },
        }
    }
}

} // verus!
