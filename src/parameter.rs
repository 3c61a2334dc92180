//! Hyperparameters that are either fixed or decay across episodes.
use vstd::prelude::*;
use crate::num::{fx_mul, fx_mul_exec, lemma_scale_shrinks, lemma_scale_strictly_shrinks, ONE};

verus! {

/// The largest magnitude a decaying parameter may take, so that the distance
/// between its value and its limit stays representable.
pub const PARAMETER_LIMIT: i64 = 0x3fff_ffff_ffff_ffff;

/// A scalar hyperparameter (learning rate, discount, trace decay, exploration
/// rate). Values are immutable: `step` returns the next one.
#[derive(Clone, Copy, Debug, PartialEq, Eq, Structural)]
pub enum Parameter {
    /// A constant.
    Fixed(i64),
    /// A value that moves toward `final_` by the factor `decay` on every step:
    /// `value' = final_ + decay * (value - final_)`.
    Exponential { value: i64, final_: i64, decay: i64 },
}

impl Parameter {
    pub open spec fn wf(self) -> bool {
        match self {
            Parameter::Fixed(_) => true,
            Parameter::Exponential { value, final_, decay } => {
                &&& 0 <= decay <= ONE
                &&& -PARAMETER_LIMIT <= value <= PARAMETER_LIMIT
                &&& -PARAMETER_LIMIT <= final_ <= PARAMETER_LIMIT
            },
        }
    }

    pub open spec fn value_spec(self) -> int {
        match self {
            Parameter::Fixed(v) => v as int,
            Parameter::Exponential { value, .. } => value as int,
        }
    }

    pub open spec fn step_spec(self) -> Parameter {
        match self {
            Parameter::Fixed(v) => Parameter::Fixed(v),
            Parameter::Exponential { value, final_, decay } => Parameter::Exponential {
                value: (final_ + fx_mul(value - final_, decay as int)) as i64,
                final_,
                decay,
            },
        }
    }

    /// The parameter after `n` steps.
    pub open spec fn steps(self, n: nat) -> Parameter
        decreases n,
    {
        if n == 0 {
            self
        } else {
            self.steps((n - 1) as nat).step_spec()
        }
    }

    /// A parameter that never changes.
    pub fn fixed(v: i64) -> (r: Parameter)
        ensures
            r == Parameter::Fixed(v),
            r.wf(),
    {
        Parameter::Fixed(v)
    }

    /// A parameter that starts at `init` and decays toward `final_` by the
    /// factor `decay` per step.
    pub fn exponential(init: i64, final_: i64, decay: i64) -> (r: Parameter)
        requires
            0 <= decay <= ONE,
            -PARAMETER_LIMIT <= init <= PARAMETER_LIMIT,
            -PARAMETER_LIMIT <= final_ <= PARAMETER_LIMIT,
        ensures
            r == (Parameter::Exponential { value: init, final_, decay }),
            r.wf(),
    {
        Parameter::Exponential { value: init, final_, decay }
    }

    /// The current value.
    pub fn value(&self) -> (r: i64)
        ensures
            r == self.value_spec(),
    {
        match self {
            Parameter::Fixed(v) => *v,
            Parameter::Exponential { value, .. } => *value,
        }
    }

    /// The parameter one step further along its schedule.
    pub fn step(&self) -> (r: Parameter)
        requires
            self.wf(),
        ensures
            r == self.step_spec(),
            r.wf(),
    {
        match self {
            Parameter::Fixed(v) => Parameter::Fixed(*v),
            Parameter::Exponential { value, final_, decay } => {
                let d: i64 = *value - *final_;
                proof {
                    lemma_scale_shrinks(d as int, *decay as int);
                }
                let m = fx_mul_exec(d, *decay);
                Parameter::Exponential { value: *final_ + m, final_: *final_, decay: *decay }
            },
        }
    }
}

/// One step of an exponential schedule keeps its limit and rate, stays on the
/// same side of the limit and does not move away from it.
proof fn lemma_step_exponential(p: Parameter)
    requires
        p.wf(),
        p is Exponential,
    ensures
        p.step_spec().wf(),
        p.step_spec() is Exponential,
        p.step_spec()->final_ == p->final_,
        p.step_spec()->decay == p->decay,
        p->value >= p->final_ ==> p->final_ <= p.step_spec()->value <= p->value,
        p->value <= p->final_ ==> p->value <= p.step_spec()->value <= p->final_,
        p->decay < ONE && p->value > p->final_ ==> p.step_spec()->value < p->value,
        p->decay < ONE && p->value < p->final_ ==> p.step_spec()->value > p->value,
{
    let d = p->value - p->final_;
    lemma_scale_shrinks(d, p->decay as int);
    if p->decay < ONE && d != 0 {
        lemma_scale_strictly_shrinks(d, p->decay as int);
    }
}

/// After `n` steps an exponential schedule keeps its limit and rate, lies
/// between its start and its limit, and, when it decays at a rate below one,
/// has closed the distance by at least `n`.
proof fn lemma_steps_exponential(p: Parameter, n: nat)
    requires
        p.wf(),
        p is Exponential,
    ensures
        p.steps(n).wf(),
        p.steps(n) is Exponential,
        p.steps(n)->final_ == p->final_,
        p.steps(n)->decay == p->decay,
        p->value >= p->final_ ==> p->final_ <= p.steps(n)->value <= p->value,
        p->value <= p->final_ ==> p->value <= p.steps(n)->value <= p->final_,
        p->decay < ONE && p->value >= p->final_ ==> p.steps(n)->value - p->final_ <= if p->value
            - p->final_ >= n {
            p->value - p->final_ - n
        } else {
            0
        },
        p->decay < ONE && p->value <= p->final_ ==> p->final_ - p.steps(n)->value <= if p->final_
            - p->value >= n {
            p->final_ - p->value - n
        } else {
            0
        },
    decreases n,
{
    if n > 0 {
        lemma_steps_exponential(p, (n - 1) as nat);
        lemma_step_exponential(p.steps((n - 1) as nat));
    }
}

/// An exponential schedule that starts above its limit never increases, never
/// passes the limit, and with a rate below one reaches it exactly after at most
/// `init - final_` steps (one fixed-point unit per step at the least).
pub proof fn lemma_exponential_decreasing(p: Parameter, n: nat)
    requires
        p.wf(),
        p is Exponential,
        p->value >= p->final_,
    ensures
        p.steps(n + 1).value_spec() <= p.steps(n).value_spec(),
        p.steps(n).value_spec() >= p->final_,
        p->decay < ONE && n >= p->value - p->final_ ==> p.steps(n).value_spec() == p->final_,
{
    lemma_steps_exponential(p, n);
    lemma_step_exponential(p.steps(n));
}

/// An exponential schedule that starts below its limit never decreases, never
/// passes the limit, and with a rate below one reaches it exactly after at most
/// `final_ - init` steps.
pub proof fn lemma_exponential_increasing(p: Parameter, n: nat)
    requires
        p.wf(),
        p is Exponential,
        p->value <= p->final_,
    ensures
        p.steps(n + 1).value_spec() >= p.steps(n).value_spec(),
        p.steps(n).value_spec() <= p->final_,
        p->decay < ONE && n >= p->final_ - p->value ==> p.steps(n).value_spec() == p->final_,
{
    lemma_steps_exponential(p, n);
    lemma_step_exponential(p.steps(n));
}

} // verus!
