//! Watkins' Q(λ): off-policy Q-learning with eligibility traces that are cut
//! whenever the executed action is not the greedy one.
use vstd::prelude::*;
use crate::domain::Transition;
use crate::error::Error;
use crate::num::{fits, fx_mul, fx_mul_exec};
use crate::parameter::Parameter;
use crate::partitions::Partitions;
use crate::policy::{argmax, greedy, lemma_greedy, Draw, Policy};
use crate::trace::Trace;
use crate::vector::{added, added_fits, axpy, axpy_fits, one_hot, scaled, scaled_fits};

verus! {

/// Watkins' Q(λ) over a linear action-value function of grid features.
///
/// The target policy is greedy with respect to `fa_theta`; `policy` is the
/// behaviour policy that chooses the executed actions.
pub struct QLambda {
    pub trace: Trace,
    pub fa_theta: Partitions,
    pub policy: Policy,
    pub alpha: Parameter,
    pub gamma: Parameter,
}

/// Scaling by zero clears every entry.
proof fn lemma_scaled_zero(s: Seq<i64>)
    ensures
        scaled_fits(s, 0),
        scaled(s, 0) == Seq::new(s.len(), |i: int| 0i64),
{
    assert forall|i: int| 0 <= i < s.len() implies #[trigger] fx_mul(s[i] as int, 0) == 0 by {
        assert(s[i] as int * 0 == 0);
    }
    assert(scaled(s, 0) =~= Seq::new(s.len(), |i: int| 0i64));
}

impl QLambda {
    pub open spec fn wf(&self) -> bool {
        &&& self.fa_theta.wf()
        &&& self.fa_theta.n_outputs_spec() >= 1
        &&& self.policy.wf()
        &&& self.alpha.wf()
        &&& self.gamma.wf()
        &&& self.trace.lambda.wf()
    }

    /// The action values at state `x`.
    pub open spec fn row(&self, x: Seq<i64>) -> Seq<i64> {
        self.fa_theta.values_at(x)
    }

    /// The action of the target (greedy) policy at state `x`.
    pub open spec fn target_action(&self, x: Seq<i64>) -> int {
        greedy(self.row(x))
    }

    /// The feature vector of state `x`.
    pub open spec fn features(&self, x: Seq<i64>) -> Seq<i64> {
        one_hot(self.fa_theta.n_features as int, self.fa_theta.cell(x))
    }

    /// Whether the states of `t` and the trace fit the approximator.
    pub open spec fn accepts(&self, t: &Transition) -> bool {
        &&& self.fa_theta.accepts(t.from.state_spec())
        &&& self.fa_theta.accepts(t.to.state_spec())
        &&& self.trace@.len() == self.fa_theta.n_features
    }

    /// The discounted value of the greedy action at the next state.
    pub open spec fn discounted(&self, t: &Transition) -> int {
        let nqs = self.row(t.to.state_spec());
        fx_mul(self.gamma.value_spec(), nqs[greedy(nqs)] as int)
    }

    /// `reward + γ max_a' Q(s', a') - Q(s, a)`.
    pub open spec fn td_error(&self, t: &Transition) -> int {
        t.reward + self.discounted(t) - self.row(t.from.state_spec())[t.action as int]
    }

    /// The rate by which the trace decays: `λγ` after a greedy action, zero
    /// otherwise.
    pub open spec fn trace_rate(&self, t: &Transition) -> int {
        if t.action == self.target_action(t.from.state_spec()) {
            fx_mul(self.trace.lambda.value_spec(), self.gamma.value_spec())
        } else {
            0
        }
    }

    /// The trace after `t`: decayed first, then the features of `s` added.
    pub open spec fn next_trace(&self, t: &Transition) -> Seq<i64> {
        added(scaled(self.trace@, self.trace_rate(t)), self.features(t.from.state_spec()))
    }

    /// `α δ`, the step taken along the trace.
    pub open spec fn step_size(&self, t: &Transition) -> int {
        fx_mul(self.td_error(t), self.alpha.value_spec())
    }

    /// The action-value weights after `t`: the column of the executed action
    /// moves by `α δ` along the new trace.
    pub open spec fn next_weights(&self, t: &Transition) -> Seq<Seq<i64>> {
        let a = t.action as int;
        self.fa_theta@.update(a, axpy(self.fa_theta@[a], self.step_size(t), self.next_trace(t)))
    }

    /// Whether every intermediate value of the update for `t` is
    /// representable.
    pub open spec fn in_range(&self, t: &Transition) -> bool {
        &&& fits(fx_mul(self.trace.lambda.value_spec(), self.gamma.value_spec()))
        &&& fits(self.discounted(t))
        &&& fits(t.reward + self.discounted(t))
        &&& fits(self.td_error(t))
        &&& scaled_fits(self.trace@, self.trace_rate(t))
        &&& added_fits(scaled(self.trace@, self.trace_rate(t)), self.features(t.from.state_spec()))
        &&& fits(self.step_size(t))
        &&& axpy_fits(self.fa_theta@[t.action as int], self.step_size(t), self.next_trace(t))
    }

    /// The error `handle_sample` reports for a transition it does not accept.
    pub open spec fn rejection(&self, t: &Transition) -> Error {
        if !self.fa_theta.accepts(t.from.state_spec()) {
            self.fa_theta.mismatch(t.from.state_spec())
        } else if !self.fa_theta.accepts(t.to.state_spec()) {
            self.fa_theta.mismatch(t.to.state_spec())
        } else {
            Error::DimensionMismatch {
                expected: self.fa_theta.n_features,
                found: self.trace@.len() as usize,
            }
        }
    }

    pub fn new(
        trace: Trace,
        fa_theta: Partitions,
        policy: Policy,
        alpha: Parameter,
        gamma: Parameter,
    ) -> (r: QLambda)
        ensures
            r == (QLambda { trace, fa_theta, policy, alpha, gamma }),
    {
        QLambda { trace, fa_theta, policy, alpha, gamma }
    }

    /// One online update from the transition `t`.
    ///
    /// The trace decays at rate `λγ` when the executed action is greedy at
    /// `s` and is cut to zero otherwise; the features of `s` are then added,
    /// and the executed action's weights move by `α δ` along the trace.
    pub fn handle_sample(&mut self, t: &Transition) -> (r: Result<(), Error>)
        requires
            old(self).wf(),
            t.action < old(self).fa_theta.n_outputs_spec(),
            old(self).accepts(t) ==> old(self).in_range(t),
        ensures
            final(self).wf(),
            r is Ok <==> old(self).accepts(t),
            r is Ok ==> {
                &&& final(self).trace@ == old(self).next_trace(t)
                &&& final(self).trace.lambda == old(self).trace.lambda
                &&& final(self).fa_theta@ == old(self).next_weights(t)
                &&& final(self).fa_theta.input_space == old(self).fa_theta.input_space
                &&& final(self).fa_theta.n_features == old(self).fa_theta.n_features
                &&& final(self).policy == old(self).policy
                &&& final(self).alpha == old(self).alpha
                &&& final(self).gamma == old(self).gamma
            },
            r is Err ==> r->Err_0 == old(self).rejection(t) && *final(self) == *old(self),
    {
        let s = t.from.state();
        let ns = t.to.state();
        let qs = match self.fa_theta.evaluate(s) {
            Ok(q) => q,
            Err(e) => return Err(e),
        };
        let nqs = match self.fa_theta.evaluate(ns) {
            Ok(q) => q,
            Err(e) => return Err(e),
        };
        let phi_s = match self.fa_theta.phi(s) {
            Ok(p) => p,
            Err(e) => return Err(e),
        };
        let nf = self.fa_theta.n_features();
        if self.trace.dim() != nf {
            return Err(Error::DimensionMismatch { expected: nf, found: self.trace.dim() });
        }
        assert(qs@ =~= old(self).row(s@));
        assert(nqs@ =~= old(self).row(ns@));
        let na = argmax(&nqs);
        let g = self.gamma.value();
        let discounted = fx_mul_exec(g, nqs[na]);
        let td_error = t.reward + discounted - qs[t.action];
        let greedy_a = argmax(&qs);
        if t.action == greedy_a {
            let rate = fx_mul_exec(self.trace.lambda.value(), g);
            self.trace.decay(rate);
        } else {
            self.trace.decay(0);
        }
        match self.trace.update(&phi_s) {
            Ok(()) => {},
            Err(e) => return Err(e),
        }
        let step = fx_mul_exec(td_error, self.alpha.value());
        let tr = self.trace.get();
        self.fa_theta.update_action_phi(&tr, t.action, step);
        Ok(())
    }

    /// Ends an episode: steps `α` and `γ`, clears the trace and lets the
    /// behaviour policy step its own schedule.
    pub fn handle_terminal(&mut self)
        requires
            old(self).wf(),
        ensures
            final(self).wf(),
            final(self).alpha == old(self).alpha.step_spec(),
            final(self).gamma == old(self).gamma.step_spec(),
            final(self).trace@ == Seq::new(old(self).trace@.len(), |i: int| 0i64),
            final(self).trace.lambda == old(self).trace.lambda,
            final(self).policy == old(self).policy.terminal_spec(),
            final(self).fa_theta == old(self).fa_theta,
    {
        self.alpha = self.alpha.step();
        self.gamma = self.gamma.step();
        proof {
            lemma_scaled_zero(self.trace@);
        }
        self.trace.decay(0);
        self.policy.handle_terminal();
    }

    /// The action of the target (greedy) policy at `s`.
    pub fn sample_target(&self, s: &Vec<i64>) -> (r: Result<usize, Error>)
        requires
            self.wf(),
        ensures
            r is Ok <==> self.fa_theta.accepts(s@),
            r is Ok ==> r->Ok_0 == self.target_action(s@),
            r is Err ==> r->Err_0 == self.fa_theta.mismatch(s@),
    {
        let qs = match self.fa_theta.evaluate(s) {
            Ok(q) => q,
            Err(e) => return Err(e),
        };
        assert(qs@ =~= self.row(s@));
        Ok(argmax(&qs))
    }

    /// The action of the behaviour policy at `s`, with the random numbers `d`.
    pub fn sample_behaviour(&self, s: &Vec<i64>, d: Draw) -> (r: Result<usize, Error>)
        requires
            self.wf(),
        ensures
            r is Ok <==> self.fa_theta.accepts(s@),
            r is Ok ==> r->Ok_0 == self.policy.sample_spec(self.row(s@), d),
            r is Err ==> r->Err_0 == self.fa_theta.mismatch(s@),
    {
        let qs = match self.fa_theta.evaluate(s) {
            Ok(q) => q,
            Err(e) => return Err(e),
        };
        assert(qs@ =~= self.row(s@));
        Ok(self.policy.sample(&qs, d))
    }

    /// The value of `s` under the target policy: its largest action value.
    pub fn predict_v(&self, s: &Vec<i64>) -> (r: Result<i64, Error>)
        requires
            self.wf(),
        ensures
            r is Ok <==> self.fa_theta.accepts(s@),
            r is Ok ==> r->Ok_0 == self.row(s@)[self.target_action(s@)],
            r is Err ==> r->Err_0 == self.fa_theta.mismatch(s@),
    {
        let a = match self.sample_target(s) {
            Ok(a) => a,
            Err(e) => return Err(e),
        };
        proof {
            lemma_greedy(self.row(s@));
        }
        self.predict_qsa(s, a)
    }

    /// The action values at `s`.
    pub fn predict_qs(&self, s: &Vec<i64>) -> (r: Result<Vec<i64>, Error>)
        requires
            self.wf(),
        ensures
            r is Ok <==> self.fa_theta.accepts(s@),
            r is Ok ==> r->Ok_0@ == self.row(s@),
            r is Err ==> r->Err_0 == self.fa_theta.mismatch(s@),
    {
        let qs = match self.fa_theta.evaluate(s) {
            Ok(q) => q,
            Err(e) => return Err(e),
        };
        assert(qs@ =~= self.row(s@));
        Ok(qs)
    }

    /// The value of action `a` at `s`.
    pub fn predict_qsa(&self, s: &Vec<i64>, a: usize) -> (r: Result<i64, Error>)
        requires
            self.wf(),
            a < self.fa_theta.n_outputs_spec(),
        ensures
            r is Ok <==> self.fa_theta.accepts(s@),
            r is Ok ==> r->Ok_0 == self.row(s@)[a as int],
            r is Err ==> r->Err_0 == self.fa_theta.mismatch(s@),
    {
        self.fa_theta.evaluate_action(s, a)
    }

    /// A copy of the action-value weights, one column per action.
    pub fn weights(&self) -> (r: Vec<Vec<i64>>)
        requires
            self.wf(),
        ensures
            r@.map_values(|c: Vec<i64>| c@) == self.fa_theta@,
    {
        self.fa_theta.weights()
    }
}

/// When the executed action is not greedy at `s`, the trace after the update
/// is exactly the feature vector of `s`, whatever the trace held before.
pub proof fn lemma_trace_cut(q: &QLambda, t: &Transition)
    requires
        q.wf(),
        q.fa_theta.accepts(t.from.state_spec()),
        q.trace@.len() == q.fa_theta.n_features,
        t.action != q.target_action(t.from.state_spec()),
    ensures
        q.next_trace(t) == q.features(t.from.state_spec()),
{
    let phi = q.features(t.from.state_spec());
    lemma_scaled_zero(q.trace@);
    assert(q.next_trace(t) =~= phi);
}

} // verus!
