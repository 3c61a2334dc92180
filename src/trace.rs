//! Eligibility traces.
use vstd::prelude::*;
use crate::error::Error;
use crate::num::{fx_mul, fx_mul_exec};
use crate::parameter::Parameter;
use crate::vector::{added, added_fits, scaled, scaled_fits};

verus! {

/// An accumulating eligibility trace over a dense feature vector.
pub struct Trace {
    /// The trace-decay rate, `λ`.
    pub lambda: Parameter,
    /// One entry per feature.
    pub weights: Vec<i64>,
}

impl View for Trace {
    type V = Seq<i64>;

    open spec fn view(&self) -> Seq<i64> {
        self.weights@
    }
}

impl Trace {
    /// A zero trace of dimension `dim`.
    pub fn new(lambda: Parameter, dim: usize) -> (r: Trace)
        ensures
            r@ == Seq::new(dim as nat, |i: int| 0i64),
            r.lambda == lambda,
    {
        let mut weights: Vec<i64> = Vec::new();
        while weights.len() < dim
            invariant
                weights.len() <= dim,
                forall|i: int| 0 <= i < weights.len() ==> weights@[i] == 0,
            decreases dim - weights.len(),
        {
            weights.push(0);
        }
        let r = Trace { lambda, weights };
        assert(r@ =~= Seq::new(dim as nat, |i: int| 0i64));
        r
    }

    /// The number of entries of the trace.
    pub fn dim(&self) -> (r: usize)
        ensures
            r == self@.len(),
    {
        self.weights.len()
    }

    /// Multiplies every entry by `rate`; a rate of zero clears the trace.
    pub fn decay(&mut self, rate: i64)
        requires
            scaled_fits(old(self)@, rate as int),
        ensures
            final(self)@ == scaled(old(self)@, rate as int),
            final(self).lambda == old(self).lambda,
    {
        let n = self.weights.len();
        let mut i: usize = 0;
        while i < n
            invariant
                n == old(self)@.len(),
                self.lambda == old(self).lambda,
                self@.len() == n,
                0 <= i <= n,
                scaled_fits(old(self)@, rate as int),
                forall|j: int| 0 <= j < i ==> self@[j] == fx_mul(old(self)@[j] as int, rate as int),
                forall|j: int| i <= j < n ==> self@[j] == old(self)@[j],
            decreases n - i,
        {
            assert(crate::num::fits(fx_mul(old(self)@[i as int] as int, rate as int)));
            let w = fx_mul_exec(self.weights[i], rate);
            self.weights.set(i, w);
            i = i + 1;
        }
        assert(self@ =~= scaled(old(self)@, rate as int));
    }

    /// Adds the feature vector `phi` to the trace. Fails, leaving the trace
    /// unchanged, when `phi` does not have the trace's dimension.
    pub fn update(&mut self, phi: &Vec<i64>) -> (r: Result<(), Error>)
        requires
            phi@.len() == old(self)@.len() ==> added_fits(old(self)@, phi@),
        ensures
            final(self).lambda == old(self).lambda,
            r is Ok <==> phi@.len() == old(self)@.len(),
            r is Ok ==> final(self)@ == added(old(self)@, phi@),
            r is Err ==> final(self)@ == old(self)@ && r == Err::<(), Error>(
                Error::DimensionMismatch { expected: old(self)@.len() as usize, found: phi@.len() as usize },
            ),
    {
        let n = self.weights.len();
        if phi.len() != n {
            return Err(Error::DimensionMismatch { expected: n, found: phi.len() });
        }
        let mut i: usize = 0;
        while i < n
            invariant
                n == old(self)@.len(),
                phi@.len() == n,
                self.lambda == old(self).lambda,
                self@.len() == n,
                0 <= i <= n,
                added_fits(old(self)@, phi@),
                forall|j: int| 0 <= j < i ==> self@[j] == old(self)@[j] + phi@[j],
                forall|j: int| i <= j < n ==> self@[j] == old(self)@[j],
            decreases n - i,
        {
            assert(crate::num::fits(old(self)@[i as int] + phi@[i as int]));
            let w = self.weights[i] + phi[i];
            self.weights.set(i, w);
            i = i + 1;
        }
        assert(self@ =~= added(old(self)@, phi@));
        Ok(())
    }

    /// A copy of the trace's entries.
    pub fn get(&self) -> (r: Vec<i64>)
        ensures
            r@ == self@,
    {
        let r = self.weights.clone();
        assert(r@ =~= self@);
        r
    }
}

/// Decaying a trace and then adding features scales the old trace alone:
/// entry `i` becomes `rate * t[i] + phi[i]`, not `rate * (t[i] + phi[i])`.
pub proof fn lemma_decay_then_update(t: Seq<i64>, rate: int, phi: Seq<i64>)
    requires
        phi.len() == t.len(),
        scaled_fits(t, rate),
        added_fits(scaled(t, rate), phi),
    ensures
        added(scaled(t, rate), phi).len() == t.len(),
        forall|i: int|
            0 <= i < t.len() ==> #[trigger] added(scaled(t, rate), phi)[i] == fx_mul(t[i] as int, rate)
                + phi[i],
{
    assert forall|i: int| 0 <= i < t.len() implies #[trigger] added(scaled(t, rate), phi)[i]
        == fx_mul(t[i] as int, rate) + phi[i] by {
        assert(crate::num::fits(fx_mul(t[i] as int, rate)));
        assert(scaled(t, rate)[i] == fx_mul(t[i] as int, rate));
        assert(crate::num::fits(scaled(t, rate)[i] + phi[i]));
    }
}

} // verus!
