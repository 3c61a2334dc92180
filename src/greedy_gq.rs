//! Greedy-GQ: off-policy control with a gradient-correction term, which keeps
//! linear off-policy learning from diverging.
use vstd::prelude::*;
use crate::domain::Transition;
use crate::error::Error;
use crate::num::{fits, fx_mul, fx_mul_exec};
use crate::parameter::Parameter;
use crate::partitions::Partitions;
use crate::policy::{argmax, greedy, Draw, Policy};
use crate::vector::{axpy, axpy_fits, lincomb, lincomb_exec, lincomb_fits, one_hot};

verus! {

/// Greedy-GQ over two linear functions of one grid's features: the action
/// values `fa_theta` and the auxiliary correction weights `fa_w`.
pub struct GreedyGQ {
    pub fa_theta: Partitions,
    pub fa_w: Partitions,
    pub policy: Policy,
    pub alpha: Parameter,
    pub beta: Parameter,
    pub gamma: Parameter,
}

impl GreedyGQ {
    pub open spec fn wf(&self) -> bool {
        &&& self.fa_theta.wf()
        &&& self.fa_w.wf()
        &&& self.fa_theta.n_outputs_spec() >= 1
        &&& self.fa_w.n_outputs_spec() >= 1
        &&& self.fa_w.input_space == self.fa_theta.input_space
        &&& self.fa_w.n_features == self.fa_theta.n_features
        &&& self.policy.wf()
        &&& self.alpha.wf()
        &&& self.beta.wf()
        &&& self.gamma.wf()
    }

    pub open spec fn features(&self, x: Seq<i64>) -> Seq<i64> {
        one_hot(self.fa_theta.n_features as int, self.fa_theta.cell(x))
    }

    pub open spec fn accepts(&self, t: &Transition) -> bool {
        self.fa_theta.accepts(t.from.state_spec()) && self.fa_theta.accepts(t.to.state_spec())
    }

    /// The correction estimate `w·φ(s)`.
    pub open spec fn estimate(&self, t: &Transition) -> int {
        self.fa_w@[0][self.fa_w.cell(t.from.state_spec())] as int
    }

    pub open spec fn discounted(&self, t: &Transition) -> int {
        let nqs = self.fa_theta.values_at(t.to.state_spec());
        fx_mul(self.gamma.value_spec(), nqs[greedy(nqs)] as int)
    }

    /// `δ = reward + γ max_a' Q(s', a') - Q(s, a)`.
    pub open spec fn td_error(&self, t: &Transition) -> int {
        t.reward + self.discounted(t) - self.fa_theta.values_at(t.from.state_spec())[t.action as int]
    }

    /// `-γ w·φ(s)`.
    pub open spec fn correction(&self, t: &Transition) -> int {
        -fx_mul(self.gamma.value_spec(), self.estimate(t))
    }

    /// `δ φ(s) - γ (w·φ(s)) φ(s')`, the direction of the action-value step.
    pub open spec fn direction(&self, t: &Transition) -> Seq<i64> {
        lincomb(
            self.features(t.from.state_spec()),
            self.td_error(t),
            self.features(t.to.state_spec()),
            self.correction(t),
        )
    }

    /// `β (δ - w·φ(s))`, the step of the correction weights along `φ(s)`.
    pub open spec fn w_step(&self, t: &Transition) -> int {
        fx_mul(self.beta.value_spec(), self.td_error(t) - self.estimate(t))
    }

    pub open spec fn next_theta(&self, t: &Transition) -> Seq<Seq<i64>> {
        let a = t.action as int;
        self.fa_theta@.update(a, axpy(self.fa_theta@[a], self.alpha.value_spec(), self.direction(t)))
    }

    pub open spec fn next_w(&self, t: &Transition) -> Seq<Seq<i64>> {
        self.fa_w@.update(0, axpy(self.fa_w@[0], self.w_step(t), self.features(t.from.state_spec())))
    }

    pub open spec fn in_range(&self, t: &Transition) -> bool {
        &&& fits(self.discounted(t))
        &&& fits(t.reward + self.discounted(t))
        &&& fits(self.td_error(t))
        &&& fits(fx_mul(self.gamma.value_spec(), self.estimate(t)))
        &&& fits(self.correction(t))
        &&& lincomb_fits(
            self.features(t.from.state_spec()),
            self.td_error(t),
            self.features(t.to.state_spec()),
            self.correction(t),
        )
        &&& axpy_fits(self.fa_theta@[t.action as int], self.alpha.value_spec(), self.direction(t))
        &&& fits(self.td_error(t) - self.estimate(t))
        &&& fits(self.w_step(t))
        &&& axpy_fits(self.fa_w@[0], self.w_step(t), self.features(t.from.state_spec()))
    }

    pub open spec fn rejection(&self, t: &Transition) -> Error {
        if !self.fa_theta.accepts(t.from.state_spec()) {
            self.fa_theta.mismatch(t.from.state_spec())
        } else {
            self.fa_theta.mismatch(t.to.state_spec())
        }
    }

    pub fn new(
        fa_theta: Partitions,
        fa_w: Partitions,
        policy: Policy,
        alpha: Parameter,
        beta: Parameter,
        gamma: Parameter,
    ) -> (r: GreedyGQ)
        ensures
            r == (GreedyGQ { fa_theta, fa_w, policy, alpha, beta, gamma }),
    {
        GreedyGQ { fa_theta, fa_w, policy, alpha, beta, gamma }
    }

    /// One online update from `t`: the executed action's weights move by
    /// `α (δ φ(s) - γ (w·φ(s)) φ(s'))` and the correction weights by
    /// `β (δ - w·φ(s)) φ(s)`, both computed from the weights before the call.
    pub fn handle_sample(&mut self, t: &Transition) -> (r: Result<(), Error>)
        requires
            old(self).wf(),
            t.action < old(self).fa_theta.n_outputs_spec(),
            old(self).accepts(t) ==> old(self).in_range(t),
        ensures
            final(self).wf(),
            r is Ok <==> old(self).accepts(t),
            r is Ok ==> {
                &&& final(self).fa_theta@ == old(self).next_theta(t)
                &&& final(self).fa_w@ == old(self).next_w(t)
                &&& final(self).policy == old(self).policy
                &&& final(self).alpha == old(self).alpha
                &&& final(self).beta == old(self).beta
                &&& final(self).gamma == old(self).gamma
            },
            r is Err ==> r->Err_0 == old(self).rejection(t) && *final(self) == *old(self),
    {
        let s = t.from.state();
        let ns = t.to.state();
        let qs = match self.fa_theta.evaluate(s) {
            Ok(q) => q,
            Err(e) => return Err(e),
        };
        let nqs = match self.fa_theta.evaluate(ns) {
            Ok(q) => q,
            Err(e) => return Err(e),
        };
        let phi_s = match self.fa_theta.phi(s) {
            Ok(p) => p,
            Err(e) => return Err(e),
        };
        let phi_ns = match self.fa_theta.phi(ns) {
            Ok(p) => p,
            Err(e) => return Err(e),
        };
        let estimate = match self.fa_w.evaluate_scalar(s) {
            Ok(v) => v,
            Err(e) => return Err(e),
        };
        let na = argmax(&nqs);
        let g = self.gamma.value();
        let discounted = fx_mul_exec(g, nqs[na]);
        let td_error = t.reward + discounted - qs[t.action];
        let correction = -fx_mul_exec(g, estimate);
        let direction = lincomb_exec(&phi_s, td_error, &phi_ns, correction);
        self.fa_theta.update_action_phi(&direction, t.action, self.alpha.value());
        let w_step = fx_mul_exec(self.beta.value(), td_error - estimate);
        self.fa_w.update_action_phi(&phi_s, 0, w_step);
        Ok(())
    }

    /// Ends an episode: steps `α`, `β` and `γ`, and the behaviour policy's own
    /// schedule.
    pub fn handle_terminal(&mut self)
        requires
            old(self).wf(),
        ensures
            final(self).wf(),
            final(self).alpha == old(self).alpha.step_spec(),
            final(self).beta == old(self).beta.step_spec(),
            final(self).gamma == old(self).gamma.step_spec(),
            final(self).policy == old(self).policy.terminal_spec(),
            final(self).fa_theta == old(self).fa_theta,
            final(self).fa_w == old(self).fa_w,
    {
        self.alpha = self.alpha.step();
        self.beta = self.beta.step();
        self.gamma = self.gamma.step();
        self.policy.handle_terminal();
    }

    /// The greedy action at `s`.
    pub fn sample_target(&self, s: &Vec<i64>) -> (r: Result<usize, Error>)
        requires
            self.wf(),
        ensures
            r is Ok <==> self.fa_theta.accepts(s@),
            r is Ok ==> r->Ok_0 == greedy(self.fa_theta.values_at(s@)),
            r is Err ==> r->Err_0 == self.fa_theta.mismatch(s@),
    {
        let qs = match self.fa_theta.evaluate(s) {
            Ok(q) => q,
            Err(e) => return Err(e),
        };
        Ok(argmax(&qs))
    }

    /// The behaviour policy's action at `s`, with the random numbers `d`.
    pub fn sample_behaviour(&self, s: &Vec<i64>, d: Draw) -> (r: Result<usize, Error>)
        requires
            self.wf(),
        ensures
            r is Ok <==> self.fa_theta.accepts(s@),
            r is Ok ==> r->Ok_0 == self.policy.sample_spec(self.fa_theta.values_at(s@), d),
            r is Err ==> r->Err_0 == self.fa_theta.mismatch(s@),
    {
        let qs = match self.fa_theta.evaluate(s) {
            Ok(q) => q,
            Err(e) => return Err(e),
        };
        Ok(self.policy.sample(&qs, d))
    }

    /// The action values at `s`.
    pub fn predict_qs(&self, s: &Vec<i64>) -> (r: Result<Vec<i64>, Error>)
        requires
            self.wf(),
        ensures
            r is Ok <==> self.fa_theta.accepts(s@),
            r is Ok ==> r->Ok_0@ == self.fa_theta.values_at(s@),
            r is Err ==> r->Err_0 == self.fa_theta.mismatch(s@),
    {
        self.fa_theta.evaluate(s)
    }
}

} // verus!
