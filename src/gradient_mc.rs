//! Gradient Monte-Carlo prediction of state values from whole episodes.
use vstd::prelude::*;
use crate::domain::Transition;
use crate::error::Error;
use crate::num::{fits, fx_mul, fx_mul_exec};
use crate::parameter::Parameter;
use crate::partitions::{table_add, Partitions};

verus! {

/// The discounted return from step `i` to the end of `batch`:
/// `G_i = r_i + γ G_{i+1}`, with `G_n = 0`.
pub open spec fn returns_from(batch: Seq<Transition>, gamma: int, i: int) -> int
    decreases batch.len() - i,
{
    if i < 0 || i >= batch.len() {
        0
    } else {
        batch[i].reward + fx_mul(gamma, returns_from(batch, gamma, i + 1))
    }
}

/// A state-value learner that waits for a whole episode and then moves the
/// value of every visited state toward its return, last step first.
pub struct GradientMC {
    pub v_func: Partitions,
    pub alpha: Parameter,
    pub gamma: Parameter,
}

impl GradientMC {
    pub open spec fn wf(&self) -> bool {
        &&& self.v_func.wf()
        &&& self.v_func.n_outputs_spec() >= 1
        &&& self.alpha.wf()
        &&& self.gamma.wf()
    }

    /// The cell of the state from which step `i` of `batch` starts.
    pub open spec fn cell_of(&self, batch: Seq<Transition>, i: int) -> int {
        self.v_func.cell(batch[i].from.state_spec())
    }

    /// The return of step `i` of `batch`.
    pub open spec fn g(&self, batch: Seq<Transition>, i: int) -> int {
        returns_from(batch, self.gamma.value_spec(), i)
    }

    /// The value table once steps `i..` of `batch` are learnt, last first.
    pub open spec fn table_from(&self, batch: Seq<Transition>, i: int) -> Seq<Seq<i64>>
        decreases batch.len() - i,
    {
        if i < 0 || i >= batch.len() {
            self.v_func@
        } else {
            let w = self.table_from(batch, i + 1);
            let c = self.cell_of(batch, i);
            table_add(w, 0, c, self.update_at(batch, i))
        }
    }

    /// The change made to the value of step `i`'s state: `α (G_i - V(s_i))`.
    pub open spec fn update_at(&self, batch: Seq<Transition>, i: int) -> int
        decreases batch.len() - i, 0int,
    {
        if i < 0 || i >= batch.len() {
            0
        } else {
            let w = self.table_from(batch, i + 1);
            let c = self.cell_of(batch, i);
            fx_mul(self.alpha.value_spec(), self.g(batch, i) - w[0][c])
        }
    }

    /// Whether every state of `batch` fits the value function.
    pub open spec fn accepts(&self, batch: Seq<Transition>) -> bool {
        forall|i: int| 0 <= i < batch.len() ==> self.v_func.accepts(#[trigger] batch[i].from.state_spec())
    }

    /// Whether every intermediate value of learning `batch` is representable.
    pub open spec fn in_range(&self, batch: Seq<Transition>) -> bool {
        forall|i: int|
            0 <= i < batch.len() ==> {
                let w = self.table_from(batch, i + 1);
                let c = self.cell_of(batch, i);
                &&& fits(fx_mul(self.gamma.value_spec(), #[trigger] self.g(batch, i + 1)))
                &&& fits(self.g(batch, i))
                &&& fits(self.g(batch, i) - w[0][c])
                &&& fits(self.update_at(batch, i))
                &&& fits(w[0][c] + self.update_at(batch, i))
            }
    }

    pub fn new(v_func: Partitions, alpha: Parameter, gamma: Parameter) -> (r: GradientMC)
        ensures
            r == (GradientMC { v_func, alpha, gamma }),
    {
        GradientMC { v_func, alpha, gamma }
    }

    /// Ends an episode: steps `α` and `γ`.
    pub fn handle_terminal(&mut self)
        requires
            old(self).wf(),
        ensures
            final(self).wf(),
            final(self).alpha == old(self).alpha.step_spec(),
            final(self).gamma == old(self).gamma.step_spec(),
            final(self).v_func == old(self).v_func,
    {
        self.alpha = self.alpha.step();
        self.gamma = self.gamma.step();
    }

    /// Learns from a whole episode. The return is accumulated from the last
    /// step back to the first; at each step the value of its starting state
    /// moves by `α (G - V(s))`. Fails, changing nothing, when a state does not
    /// fit the value function: the error names the first such state.
    pub fn handle_batch(&mut self, batch: &Vec<Transition>) -> (r: Result<(), Error>)
        requires
            old(self).wf(),
            old(self).accepts(batch@) ==> old(self).in_range(batch@),
        ensures
            final(self).wf(),
            r is Ok <==> old(self).accepts(batch@),
            r is Ok ==> {
                &&& final(self).v_func@ == old(self).table_from(batch@, 0)
                &&& final(self).v_func.input_space == old(self).v_func.input_space
                &&& final(self).alpha == old(self).alpha
                &&& final(self).gamma == old(self).gamma
            },
            r is Err ==> *final(self) == *old(self) && exists|i: int|
                0 <= i < batch@.len() && !old(self).v_func.accepts(#[trigger] batch@[i].from.state_spec())
                    && (forall|j: int| 0 <= j < i ==> old(self).v_func.accepts(#[trigger] batch@[j].from.state_spec()))
                    && r->Err_0 == old(self).v_func.mismatch(batch@[i].from.state_spec()),
    {
        let n = batch.len();
        let n_dims = self.v_func.input_space.n_dims();
        let mut k: usize = 0;
        while k < n
            invariant
                n == batch@.len(),
                n_dims == self.v_func.input_space.dims@.len(),
                *self == *old(self),
                old(self).wf(),
                0 <= k <= n,
                forall|j: int| 0 <= j < k ==> self.v_func.accepts(#[trigger] batch@[j].from.state_spec()),
            decreases n - k,
        {
            let s = batch[k].from.state();
            if s.len() != n_dims {
                return Err(Error::DimensionMismatch { expected: n_dims, found: s.len() });
            }
            k = k + 1;
        }
        let alpha = self.alpha.value();
        let gamma = self.gamma.value();
        let ghost start = *self;
        let mut sum: i64 = 0;
        let mut i: usize = n;
        while i > 0
            invariant
                n == batch@.len(),
                0 <= i <= n,
                start == *old(self),
                start.wf(),
                start.accepts(batch@),
                start.in_range(batch@),
                alpha == start.alpha.value_spec(),
                gamma == start.gamma.value_spec(),
                self.v_func.wf(),
                self.v_func.n_outputs_spec() == start.v_func.n_outputs_spec(),
                self.v_func.input_space == start.v_func.input_space,
                self.v_func.n_features == start.v_func.n_features,
                self.alpha == start.alpha,
                self.gamma == start.gamma,
                self.v_func@ == start.table_from(batch@, i as int),
                sum == start.g(batch@, i as int),
            decreases i,
        {
            i = i - 1;
            let t = &batch[i];
            assert(fits(fx_mul(gamma as int, start.g(batch@, i + 1))));
            let discounted = fx_mul_exec(gamma, sum);
            sum = t.reward + discounted;
            let s = t.from.state();
            assert(start.v_func.accepts(batch@[i as int].from.state_spec()));
            let v_est = match self.v_func.evaluate_scalar(s) {
                Ok(v) => v,
                Err(e) => return Err(e),
            };
            let e = fx_mul_exec(alpha, sum - v_est);
            match self.v_func.update_scalar(s, e) {
                Ok(()) => {},
                Err(e) => return Err(e),
            }
        }
        Ok(())
    }

    /// The estimated value of `s`.
    pub fn predict_v(&self, s: &Vec<i64>) -> (r: Result<i64, Error>)
        requires
            self.wf(),
        ensures
            r is Ok <==> self.v_func.accepts(s@),
            r is Ok ==> r->Ok_0 == self.v_func@[0][self.v_func.cell(s@)],
            r is Err ==> r->Err_0 == self.v_func.mismatch(s@),
    {
        self.v_func.evaluate_scalar(s)
    }

    /// A copy of the value weights.
    pub fn weights(&self) -> (r: Vec<Vec<i64>>)
        requires
            self.wf(),
        ensures
            r@.map_values(|c: Vec<i64>| c@) == self.v_func@,
    {
        self.v_func.weights()
    }
}

} // verus!
