//! Action selection from a vector of action values.
use vstd::prelude::*;
use crate::parameter::Parameter;

verus! {

/// The first index of a largest entry among `qs[0..k]`.
pub open spec fn argmax_prefix(qs: Seq<i64>, k: int) -> int
    decreases k,
{
    if k <= 1 {
        0
    } else {
        let m = argmax_prefix(qs, k - 1);
        if qs[k - 1] > qs[m] {
            k - 1
        } else {
            m
        }
    }
}

/// The greedy action: the first index of a largest value.
pub open spec fn greedy(qs: Seq<i64>) -> int {
    argmax_prefix(qs, qs.len() as int)
}

proof fn lemma_argmax_prefix(qs: Seq<i64>, k: int)
    requires
        1 <= k <= qs.len(),
    ensures
        0 <= argmax_prefix(qs, k) < k,
        forall|j: int| 0 <= j < k ==> #[trigger] qs[j] <= qs[argmax_prefix(qs, k)],
        forall|j: int| 0 <= j < argmax_prefix(qs, k) ==> #[trigger] qs[j] < qs[argmax_prefix(qs, k)],
    decreases k,
{
    if k > 1 {
        lemma_argmax_prefix(qs, k - 1);
    }
}

/// The greedy action has a largest value, and no earlier action has as large
/// a one.
pub proof fn lemma_greedy(qs: Seq<i64>)
    requires
        qs.len() >= 1,
    ensures
        0 <= greedy(qs) < qs.len(),
        forall|j: int| 0 <= j < qs.len() ==> #[trigger] qs[j] <= qs[greedy(qs)],
        forall|j: int| 0 <= j < greedy(qs) ==> #[trigger] qs[j] < qs[greedy(qs)],
{
    lemma_argmax_prefix(qs, qs.len() as int);
}

/// The greedy action over `qs`.
pub fn argmax(qs: &Vec<i64>) -> (r: usize)
    requires
        qs@.len() >= 1,
    ensures
        r == greedy(qs@),
        r < qs@.len(),
{
    let n = qs.len();
    let mut m: usize = 0;
    let mut k: usize = 1;
    while k < n
        invariant
            n == qs@.len(),
            1 <= k <= n,
            m == argmax_prefix(qs@, k as int),
            m < k,
        decreases n - k,
    {
        if qs[k] > qs[m] {
            m = k;
        }
        k = k + 1;
    }
    m
}

/// Random numbers drawn by the caller for one sample of a stochastic policy:
/// `explore` uniform in `[0, ONE)`, `pick` uniform over the `u64` values.
#[derive(Clone, Copy, Debug, PartialEq, Eq, Structural)]
pub struct Draw {
    pub explore: i64,
    pub pick: u64,
}

/// The ways of choosing an action from action values.
#[derive(Clone, Copy, Debug, PartialEq, Eq, Structural)]
pub enum Policy {
    /// Always a greedy action.
    Greedy,
    /// An action chosen uniformly at random.
    Random,
    /// A random action with probability `epsilon`, else a greedy one.
    EpsilonGreedy(Parameter),
}

impl Policy {
    pub open spec fn wf(self) -> bool {
        match self {
            Policy::EpsilonGreedy(e) => e.wf(),
            _ => true,
        }
    }

    /// The action chosen from `qs` with the random numbers `d`.
    pub open spec fn sample_spec(self, qs: Seq<i64>, d: Draw) -> int {
        match self {
            Policy::Greedy => greedy(qs),
            Policy::Random => (d.pick % (qs.len() as u64)) as int,
            Policy::EpsilonGreedy(e) => if d.explore < e.value_spec() {
                (d.pick % (qs.len() as u64)) as int
            } else {
                greedy(qs)
            },
        }
    }

    /// The policy as it stands after the end of an episode.
    pub open spec fn terminal_spec(self) -> Policy {
        match self {
            Policy::EpsilonGreedy(e) => Policy::EpsilonGreedy(e.step_spec()),
            p => p,
        }
    }

    /// Chooses an action from `qs` with the random numbers `d`.
    pub fn sample(&self, qs: &Vec<i64>, d: Draw) -> (r: usize)
        requires
            qs@.len() >= 1,
        ensures
            r == self.sample_spec(qs@, d),
            r < qs@.len(),
    {
        let n = qs.len() as u64;
        match self {
            Policy::Greedy => argmax(qs),
            Policy::Random => (d.pick % n) as usize,
            Policy::EpsilonGreedy(e) => {
                if d.explore < e.value() {
                    (d.pick % n) as usize
                } else {
                    argmax(qs)
                }
            },
        }
    }

    /// Advances the exploration schedule at the end of an episode.
    pub fn handle_terminal(&mut self)
        requires
            old(self).wf(),
        ensures
            *final(self) == old(self).terminal_spec(),
            final(self).wf(),
    {
        match self {
            Policy::EpsilonGreedy(e) => {
                let next = e.step();
                *self = Policy::EpsilonGreedy(next);
            },
            _ => {},
        }
    }
}

} // verus!
