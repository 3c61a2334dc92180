//! One-step Q-learning and SARSA over a table of action values.
use vstd::prelude::*;
use crate::domain::Transition;
use crate::error::Error;
use crate::num::{fits, fx_mul, fx_mul_exec};
use crate::partitions::{table_add, Partitions};
use crate::policy::{argmax, greedy, Draw, Policy};

verus! {

/// The learning rate both learners start with, 0.10.
pub const DEFAULT_ALPHA: i64 = 100_000;

/// The discount both learners start with, 0.95.
pub const DEFAULT_GAMMA: i64 = 950_000;

/// The update both learners make: the action-value of `a` at the cell `c`
/// moves by `α (reward + γ next - q[a][c])`.
pub open spec fn td_step(alpha: int, gamma: int, reward: int, next: int, current: int) -> int {
    fx_mul(alpha, reward + fx_mul(gamma, next) - current)
}

/// Whether every intermediate value of `td_step` and the sum of the old value
/// and the step are representable.
pub open spec fn td_step_fits(alpha: int, gamma: int, reward: int, next: int, current: int) -> bool {
    &&& fits(fx_mul(gamma, next))
    &&& fits(reward + fx_mul(gamma, next))
    &&& fits(reward + fx_mul(gamma, next) - current)
    &&& fits(td_step(alpha, gamma, reward, next, current))
    &&& fits(current + td_step(alpha, gamma, reward, next, current))
}

/// The error reported for a transition whose states do not fit `q`.
pub open spec fn state_rejection(q: &Partitions, t: &Transition) -> Error {
    if !q.accepts(t.from.state_spec()) {
        q.mismatch(t.from.state_spec())
    } else {
        q.mismatch(t.to.state_spec())
    }
}

pub open spec fn accepts_states(q: &Partitions, t: &Transition) -> bool {
    q.accepts(t.from.state_spec()) && q.accepts(t.to.state_spec())
}

fn td_update(
    q: &mut Partitions,
    t: &Transition,
    qs: &Vec<i64>,
    next: i64,
    alpha: i64,
    gamma: i64,
) -> (r: Result<(), Error>)
    requires
        old(q).wf(),
        t.action < old(q).n_outputs_spec(),
        accepts_states(&*old(q), t),
        qs@ == old(q).values_at(t.from.state_spec()),
        td_step_fits(alpha as int, gamma as int, t.reward as int, next as int, qs@[t.action as int] as int),
    ensures
        final(q).wf(),
        final(q).input_space == old(q).input_space,
        final(q).n_features == old(q).n_features,
        final(q).n_outputs_spec() == old(q).n_outputs_spec(),
        r is Ok,
        final(q)@ == table_add(
            old(q)@,
            t.action as int,
            old(q).cell(t.from.state_spec()),
            td_step(alpha as int, gamma as int, t.reward as int, next as int, qs@[t.action as int] as int),
        ),
{
    let discounted = fx_mul_exec(gamma, next);
    let e = fx_mul_exec(alpha, t.reward + discounted - qs[t.action]);
    q.update_action(t.from.state(), t.action, e)
}

/// One-step Q-learning: off-policy, its target is always the greedy action.
pub struct QLearning {
    pub q_func: Partitions,
    pub exploration_policy: Policy,
    pub alpha: i64,
    pub gamma: i64,
}

impl QLearning {
    pub open spec fn wf(&self) -> bool {
        &&& self.q_func.wf()
        &&& self.q_func.n_outputs_spec() >= 1
        &&& self.exploration_policy.wf()
    }

    /// The value of the greedy action at the next state of `t`.
    pub open spec fn target_value(&self, t: &Transition) -> int {
        let nqs = self.q_func.values_at(t.to.state_spec());
        nqs[greedy(nqs)] as int
    }

    /// The change made to the executed action's value at `s`.
    pub open spec fn step(&self, t: &Transition) -> int {
        td_step(
            self.alpha as int,
            self.gamma as int,
            t.reward as int,
            self.target_value(t),
            self.q_func.values_at(t.from.state_spec())[t.action as int] as int,
        )
    }

    pub open spec fn in_range(&self, t: &Transition) -> bool {
        td_step_fits(
            self.alpha as int,
            self.gamma as int,
            t.reward as int,
            self.target_value(t),
            self.q_func.values_at(t.from.state_spec())[t.action as int] as int,
        )
    }

    pub open spec fn next_weights(&self, t: &Transition) -> Seq<Seq<i64>> {
        table_add(self.q_func@, t.action as int, self.q_func.cell(t.from.state_spec()), self.step(t))
    }

    /// A learner with learning rate 0.10 and discount 0.95.
    pub fn new(q_func: Partitions, policy: Policy) -> (r: QLearning)
        ensures
            r == (QLearning {
                q_func,
                exploration_policy: policy,
                alpha: DEFAULT_ALPHA,
                gamma: DEFAULT_GAMMA,
            }),
    {
        QLearning { q_func, exploration_policy: policy, alpha: DEFAULT_ALPHA, gamma: DEFAULT_GAMMA }
    }

    /// Learns from `t` and returns the next action to execute: the
    /// exploration policy's choice over the action values at `s` before the
    /// update, with the random numbers `d`.
    pub fn handle(&mut self, t: &Transition, d: Draw) -> (r: Result<usize, Error>)
        requires
            old(self).wf(),
            t.action < old(self).q_func.n_outputs_spec(),
            accepts_states(&old(self).q_func, t) ==> old(self).in_range(t),
        ensures
            final(self).wf(),
            r is Ok <==> accepts_states(&old(self).q_func, t),
            r is Ok ==> {
                &&& final(self).q_func@ == old(self).next_weights(t)
                &&& final(self).q_func.input_space == old(self).q_func.input_space
                &&& final(self).exploration_policy == old(self).exploration_policy
                &&& final(self).alpha == old(self).alpha
                &&& final(self).gamma == old(self).gamma
                &&& r->Ok_0 == old(self).exploration_policy.sample_spec(
                    old(self).q_func.values_at(t.from.state_spec()),
                    d,
                )
            },
            r is Err ==> r->Err_0 == state_rejection(&old(self).q_func, t) && *final(self)
                == *old(self),
    {
        let qs = match self.q_func.evaluate(t.from.state()) {
            Ok(q) => q,
            Err(e) => return Err(e),
        };
        let nqs = match self.q_func.evaluate(t.to.state()) {
            Ok(q) => q,
            Err(e) => return Err(e),
        };
        let na = argmax(&nqs);
        let next = nqs[na];
        let action = self.exploration_policy.sample(&qs, d);
        match td_update(&mut self.q_func, t, &qs, next, self.alpha, self.gamma) {
            Ok(()) => {},
            Err(e) => return Err(e),
        }
        Ok(action)
    }
}

/// SARSA: on-policy, its target is the action its own policy picks at the
/// next state.
pub struct SARSA {
    pub q_func: Partitions,
    pub policy: Policy,
    pub alpha: i64,
    pub gamma: i64,
}

impl SARSA {
    pub open spec fn wf(&self) -> bool {
        &&& self.q_func.wf()
        &&& self.q_func.n_outputs_spec() >= 1
        &&& self.policy.wf()
    }

    /// The value, at the next state of `t`, of the action the policy picks
    /// there with the random numbers `dn`.
    pub open spec fn target_value(&self, t: &Transition, dn: Draw) -> int {
        let nqs = self.q_func.values_at(t.to.state_spec());
        nqs[self.policy.sample_spec(nqs, dn)] as int
    }

    pub open spec fn step(&self, t: &Transition, dn: Draw) -> int {
        td_step(
            self.alpha as int,
            self.gamma as int,
            t.reward as int,
            self.target_value(t, dn),
            self.q_func.values_at(t.from.state_spec())[t.action as int] as int,
        )
    }

    pub open spec fn in_range(&self, t: &Transition, dn: Draw) -> bool {
        td_step_fits(
            self.alpha as int,
            self.gamma as int,
            t.reward as int,
            self.target_value(t, dn),
            self.q_func.values_at(t.from.state_spec())[t.action as int] as int,
        )
    }

    pub open spec fn next_weights(&self, t: &Transition, dn: Draw) -> Seq<Seq<i64>> {
        table_add(self.q_func@, t.action as int, self.q_func.cell(t.from.state_spec()), self.step(t, dn))
    }

    /// A learner with learning rate 0.10 and discount 0.95.
    pub fn new(q_func: Partitions, policy: Policy) -> (r: SARSA)
        ensures
            r == (SARSA { q_func, policy, alpha: DEFAULT_ALPHA, gamma: DEFAULT_GAMMA }),
    {
        SARSA { q_func, policy, alpha: DEFAULT_ALPHA, gamma: DEFAULT_GAMMA }
    }

    /// Learns from `t`, taking as target the action the policy picks at `s'`
    /// with the random numbers `dn`, and returns the policy's choice at `s`
    /// (before the update) with the random numbers `d`.
    pub fn handle(&mut self, t: &Transition, dn: Draw, d: Draw) -> (r: Result<usize, Error>)
        requires
            old(self).wf(),
            t.action < old(self).q_func.n_outputs_spec(),
            accepts_states(&old(self).q_func, t) ==> old(self).in_range(t, dn),
        ensures
            final(self).wf(),
            r is Ok <==> accepts_states(&old(self).q_func, t),
            r is Ok ==> {
                &&& final(self).q_func@ == old(self).next_weights(t, dn)
                &&& final(self).q_func.input_space == old(self).q_func.input_space
                &&& final(self).policy == old(self).policy
                &&& final(self).alpha == old(self).alpha
                &&& final(self).gamma == old(self).gamma
                &&& r->Ok_0 == old(self).policy.sample_spec(
                    old(self).q_func.values_at(t.from.state_spec()),
                    d,
                )
            },
            r is Err ==> r->Err_0 == state_rejection(&old(self).q_func, t) && *final(self)
                == *old(self),
    {
        let qs = match self.q_func.evaluate(t.from.state()) {
            Ok(q) => q,
            Err(e) => return Err(e),
        };
        let nqs = match self.q_func.evaluate(t.to.state()) {
            Ok(q) => q,
            Err(e) => return Err(e),
        };
        let na = self.policy.sample(&nqs, dn);
        let next = nqs[na];
        let action = self.policy.sample(&qs, d);
        match td_update(&mut self.q_func, t, &qs, next, self.alpha, self.gamma) {
            Ok(()) => {},
            Err(e) => return Err(e),
        }
        Ok(action)
    }
}

/// Q-learning's update does not depend on the exploration policy: two
/// learners that differ only in how they explore make the same change to
/// their action values on every transition.
pub proof fn lemma_q_learning_target_independent(q1: &QLearning, q2: &QLearning, t: &Transition)
    requires
        q1.q_func == q2.q_func,
        q1.alpha == q2.alpha,
        q1.gamma == q2.gamma,
    ensures
        q1.next_weights(t) == q2.next_weights(t),
        q1.in_range(t) == q2.in_range(t),
{
}

} // verus!
