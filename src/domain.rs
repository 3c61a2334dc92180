//! What a domain hands to a learner on every step.
use vstd::prelude::*;

verus! {

/// A state as a learner sees it. `Terminal` marks the end of an episode.
#[derive(Debug)]
pub enum Observation {
    Full(Vec<i64>),
    Partial(Vec<i64>),
    Terminal(Vec<i64>),
}

impl Observation {
    pub open spec fn state_spec(&self) -> Seq<i64> {
        match self {
            Observation::Full(s) => s@,
            Observation::Partial(s) => s@,
            Observation::Terminal(s) => s@,
        }
    }

    /// The state carried by the observation.
    pub fn state(&self) -> (r: &Vec<i64>)
        ensures
            r@ == self.state_spec(),
    {
        match self {
            Observation::Full(s) => s,
            Observation::Partial(s) => s,
            Observation::Terminal(s) => s,
        }
    }

    /// Whether the observation ends an episode.
    pub fn is_terminal(&self) -> (r: bool)
        ensures
            r == self is Terminal,
    {
        match self {
            Observation::Terminal(_) => true,
            _ => false,
        }
    }
}

/// One step of a domain: from `from`, taking `action`, the learner received
/// `reward` and observed `to`.
#[derive(Debug)]
pub struct Transition {
    pub from: Observation,
    pub action: usize,
    pub reward: i64,
    pub to: Observation,
}

} // verus!
