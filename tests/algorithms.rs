use rsrl::capability::{Capability, Learner};
use rsrl::domain::{Observation, Transition};
use rsrl::error::Error;
use rsrl::gradient_mc::GradientMC;
use rsrl::greedy_gq::GreedyGQ;
use rsrl::parameter::Parameter;
use rsrl::partitions::{Partition, Partitions, RegularSpace};
use rsrl::policy::{argmax, Draw, Policy};
use rsrl::q_lambda::QLambda;
use rsrl::td_zero::{QLearning, SARSA};
use rsrl::trace::Trace;

const ONE: i64 = 1_000_000;

fn fx(v: f64) -> i64 {
    (v * 1_000_000.0).round() as i64
}

/// A line of `n` cells, one per integer state `0..n`.
fn line(n: usize, n_outputs: usize) -> Partitions {
    let hi = (n as i64 - 1).max(1) * ONE;
    let space = RegularSpace::new().push(Partition::new(0, hi, n));
    Partitions::new(space, n_outputs).unwrap()
}

fn state(i: i64) -> Vec<i64> {
    vec![i * ONE]
}

fn step(from: i64, action: usize, reward: f64, to: i64, terminal: bool) -> Transition {
    Transition {
        from: Observation::Full(state(from)),
        action,
        reward: fx(reward),
        to: if terminal {
            Observation::Terminal(state(to))
        } else {
            Observation::Full(state(to))
        },
    }
}

struct Lcg(u64);

impl Lcg {
    fn draw(&mut self) -> Draw {
        self.0 = self.0.wrapping_mul(6364136223846793005).wrapping_add(1442695040888963407);
        let explore = ((self.0 >> 33) % (ONE as u64)) as i64;
        self.0 = self.0.wrapping_mul(6364136223846793005).wrapping_add(1442695040888963407);
        Draw { explore, pick: self.0 >> 17 }
    }
}

#[test]
fn greedy_picks_first_largest() {
    assert_eq!(argmax(&vec![1, 5, 5, 2]), 1);
    assert_eq!(argmax(&vec![-3]), 0);
    let d = Draw { explore: 0, pick: 7 };
    assert_eq!(Policy::Greedy.sample(&vec![0, 9, 1], d), 1);
    assert_eq!(Policy::Random.sample(&vec![0, 9, 1], d), 1);
    let eps = Policy::EpsilonGreedy(Parameter::fixed(fx(0.1)));
    assert_eq!(eps.sample(&vec![4, 0, 1], Draw { explore: fx(0.05), pick: 5 }), 2);
    assert_eq!(eps.sample(&vec![4, 0, 1], Draw { explore: fx(0.5), pick: 5 }), 0);
}

#[test]
fn epsilon_decays_at_episode_end() {
    let mut p = Policy::EpsilonGreedy(Parameter::exponential(fx(0.3), fx(0.0), fx(0.5)));
    p.handle_terminal();
    assert_eq!(p, Policy::EpsilonGreedy(Parameter::exponential(fx(0.15), fx(0.0), fx(0.5))));
}

fn toy_q_learning(policy: Policy) -> QLearning {
    let mut q = QLearning::new(line(1, 2), policy);
    q.alpha = fx(0.1);
    q.gamma = fx(0.9);
    q
}

#[test]
fn q_learning_target_ignores_behaviour() {
    let actions = [0usize, 1, 0];
    let mut greedy = toy_q_learning(Policy::Greedy);
    let mut random = toy_q_learning(Policy::Random);
    let mut rng = Lcg(3);
    for &a in actions.iter() {
        let t = step(0, a, 1.0, 0, false);
        greedy.handle(&t, Draw { explore: 0, pick: 0 }).unwrap();
        random.handle(&t, rng.draw()).unwrap();
    }
    let expected = vec![vec![fx(0.19981)], vec![fx(0.109)]];
    assert_eq!(greedy.q_func.weights(), expected);
    assert_eq!(random.q_func.weights(), expected);
}

#[test]
fn q_learning_default_rates() {
    let q = QLearning::new(line(1, 2), Policy::Greedy);
    assert_eq!((q.alpha, q.gamma), (fx(0.10), fx(0.95)));
    let s = SARSA::new(line(1, 2), Policy::Greedy);
    assert_eq!((s.alpha, s.gamma), (fx(0.10), fx(0.95)));
}

#[test]
fn q_learning_returns_behaviour_action() {
    let mut q = toy_q_learning(Policy::Random);
    let a = q.handle(&step(0, 0, 1.0, 0, false), Draw { explore: 0, pick: 3 }).unwrap();
    assert_eq!(a, 1);
}

#[test]
fn q_learning_rejects_wrong_state() {
    let mut q = toy_q_learning(Policy::Greedy);
    let t = Transition {
        from: Observation::Full(vec![0, 0]),
        action: 0,
        reward: ONE,
        to: Observation::Full(state(0)),
    };
    assert_eq!(
        q.handle(&t, Draw { explore: 0, pick: 0 }),
        Err(Error::DimensionMismatch { expected: 1, found: 2 })
    );
}

#[test]
fn q_learning_two_state_domain_converges() {
    let mut q = QLearning::new(line(2, 2), Policy::Random);
    q.alpha = fx(0.1);
    q.gamma = fx(0.9);
    let mut rng = Lcg(42);
    for _ in 0..50 {
        let mut a = (rng.draw().pick % 2) as usize;
        let mut steps = 0;
        loop {
            let t = if a == 0 {
                step(0, 0, 1.0, 1, true)
            } else {
                step(0, 1, 0.0, 0, false)
            };
            let next = q.handle(&t, rng.draw()).unwrap();
            if t.to.is_terminal() {
                break;
            }
            steps += 1;
            // Force the episode to end if exploration keeps looping.
            a = if steps > 20 { 0 } else { next };
        }
    }
    let q00 = q.q_func.evaluate_action(&state(0), 0).unwrap();
    assert!((q00 - fx(1.0)).abs() <= fx(0.05), "Q(0, 0) = {}", q00);
}

#[test]
fn sarsa_uses_policy_action_as_target() {
    let mut s = SARSA::new(line(1, 2), Policy::Random);
    s.alpha = fx(0.5);
    s.gamma = fx(1.0);
    let t = step(0, 0, 1.0, 0, false);
    s.handle(&t, Draw { explore: 0, pick: 0 }, Draw { explore: 0, pick: 0 }).unwrap();
    // Q(0) = 0.5; next, the target action 1 has value 0.
    s.handle(&t, Draw { explore: 0, pick: 1 }, Draw { explore: 0, pick: 0 }).unwrap();
    assert_eq!(s.q_func.evaluate(&state(0)).unwrap(), vec![fx(0.75), 0]);
    // With the target action 0 instead: 0.75 + 0.5 (1 + 0.75 - 0.75).
    s.handle(&t, Draw { explore: 0, pick: 0 }, Draw { explore: 0, pick: 0 }).unwrap();
    assert_eq!(s.q_func.evaluate(&state(0)).unwrap(), vec![fx(1.25), 0]);
}

fn q_lambda() -> QLambda {
    let fa = line(2, 2);
    let trace = Trace::new(Parameter::fixed(fx(0.5)), fa.n_features());
    QLambda::new(trace, fa, Policy::Greedy, Parameter::fixed(fx(0.5)), Parameter::fixed(fx(0.8)))
}

#[test]
fn q_lambda_cuts_trace_after_non_greedy_action() {
    let mut q = q_lambda();
    q.fa_theta.update_action(&state(0), 0, fx(1.0)).unwrap();
    q.trace.weights = vec![fx(123.0), fx(-45.0)];
    q.handle_sample(&step(0, 1, 0.0, 1, false)).unwrap();
    assert_eq!(q.trace.get(), vec![ONE, 0]);
}

#[test]
fn q_lambda_decays_trace_after_greedy_action() {
    let mut q = q_lambda();
    q.trace.weights = vec![fx(2.0), fx(1.0)];
    q.handle_sample(&step(0, 0, 1.0, 1, false)).unwrap();
    // rate λγ = 0.4: [0.8 + 1, 0.4]
    assert_eq!(q.trace.get(), vec![fx(1.8), fx(0.4)]);
    // δ = 1, step α δ = 0.5 along the trace, on action 0 only.
    assert_eq!(q.weights(), vec![vec![fx(0.9), fx(0.2)], vec![0, 0]]);
    assert_eq!(q.predict_qs(&state(0)).unwrap(), vec![fx(0.9), 0]);
    assert_eq!(q.predict_v(&state(1)).unwrap(), fx(0.2));
    assert_eq!(q.predict_qsa(&state(1), 1).unwrap(), 0);
    assert_eq!(q.sample_target(&state(0)).unwrap(), 0);
    assert_eq!(q.sample_behaviour(&state(0), Draw { explore: 0, pick: 1 }).unwrap(), 0);
}

#[test]
fn q_lambda_terminal_resets_trace_and_steps_parameters() {
    let fa = line(2, 2);
    let trace = Trace::new(Parameter::fixed(fx(0.5)), 2);
    let mut q = QLambda::new(
        trace,
        fa,
        Policy::Greedy,
        Parameter::exponential(fx(0.4), fx(0.0), fx(0.5)),
        Parameter::fixed(fx(0.9)),
    );
    q.handle_sample(&step(0, 0, 1.0, 1, true)).unwrap();
    q.handle_terminal();
    assert_eq!(q.trace.get(), vec![0, 0]);
    assert_eq!(q.alpha.value(), fx(0.2));
    assert_eq!(q.gamma.value(), fx(0.9));
}

#[test]
fn q_lambda_rejects_trace_of_wrong_size() {
    let fa = line(2, 2);
    let trace = Trace::new(Parameter::fixed(0), 3);
    let mut q = QLambda::new(trace, fa, Policy::Greedy, Parameter::fixed(ONE), Parameter::fixed(ONE));
    assert_eq!(
        q.handle_sample(&step(0, 0, 1.0, 1, false)),
        Err(Error::DimensionMismatch { expected: 2, found: 3 })
    );
}

#[test]
fn gradient_mc_accumulates_returns_in_reverse() {
    let mut mc = GradientMC::new(line(3, 1), Parameter::fixed(ONE), Parameter::fixed(fx(0.5)));
    let batch = vec![
        step(0, 0, 1.0, 1, false),
        step(1, 0, 0.0, 2, false),
        step(2, 0, 2.0, 2, true),
    ];
    mc.handle_batch(&batch).unwrap();
    assert_eq!(mc.predict_v(&state(2)).unwrap(), fx(2.0));
    assert_eq!(mc.predict_v(&state(1)).unwrap(), fx(1.0));
    assert_eq!(mc.predict_v(&state(0)).unwrap(), fx(1.5));
    assert_eq!(mc.weights(), vec![vec![fx(1.5), fx(1.0), fx(2.0)]]);
}

#[test]
fn gradient_mc_moves_by_alpha() {
    let mut mc = GradientMC::new(line(1, 1), Parameter::fixed(fx(0.5)), Parameter::fixed(fx(0.5)));
    mc.handle_batch(&vec![step(0, 0, 2.0, 0, false), step(0, 0, 2.0, 0, true)]).unwrap();
    // Last step first: V = 0.5 * 2 = 1; then G = 2 + 0.5 * 2 = 3, V = 1 + 0.5 * 2 = 2.
    assert_eq!(mc.predict_v(&state(0)).unwrap(), fx(2.0));
}

#[test]
fn gradient_mc_rejects_batch_with_bad_state() {
    let mut mc = GradientMC::new(line(3, 1), Parameter::fixed(ONE), Parameter::fixed(fx(0.5)));
    let bad = Transition {
        from: Observation::Partial(vec![]),
        action: 0,
        reward: ONE,
        to: Observation::Full(state(0)),
    };
    let batch = vec![step(0, 0, 1.0, 1, false), bad];
    assert_eq!(
        mc.handle_batch(&batch),
        Err(Error::DimensionMismatch { expected: 1, found: 0 })
    );
    assert_eq!(mc.weights(), vec![vec![0, 0, 0]]);
}

#[test]
fn gradient_mc_terminal_steps_parameters() {
    let mut mc = GradientMC::new(
        line(1, 1),
        Parameter::exponential(fx(1.0), fx(0.0), fx(0.5)),
        Parameter::exponential(fx(0.5), fx(1.0), fx(0.5)),
    );
    mc.handle_terminal();
    assert_eq!(mc.alpha.value(), fx(0.5));
    assert_eq!(mc.gamma.value(), fx(0.75));
}

#[test]
fn greedy_gq_one_step() {
    let mut gq = GreedyGQ::new(
        line(2, 2),
        line(2, 1),
        Policy::Greedy,
        Parameter::fixed(fx(0.5)),
        Parameter::fixed(fx(0.25)),
        Parameter::fixed(fx(0.5)),
    );
    gq.fa_w.update_scalar(&state(0), fx(0.4)).unwrap();
    gq.fa_theta.update_action(&state(1), 1, fx(2.0)).unwrap();
    gq.handle_sample(&step(0, 0, 1.0, 1, false)).unwrap();
    // δ = 1 + 0.5 * 2 - 0 = 2; direction = 2 φ(s) - 0.5 * 0.4 φ(s') = [2, -0.2].
    assert_eq!(gq.fa_theta.weights()[0], vec![fx(1.0), fx(-0.1)]);
    // w += 0.25 (2 - 0.4) φ(s).
    assert_eq!(gq.fa_w.weights()[0], vec![fx(0.8), 0]);
    assert_eq!(gq.sample_target(&state(0)).unwrap(), 0);
    assert_eq!(gq.predict_qs(&state(1)).unwrap(), vec![fx(-0.1), fx(2.0)]);
    assert_eq!(gq.sample_behaviour(&state(1), Draw { explore: 0, pick: 0 }).unwrap(), 1);
}

#[test]
fn greedy_gq_terminal_steps_all_parameters() {
    let mut gq = GreedyGQ::new(
        line(2, 2),
        line(2, 1),
        Policy::EpsilonGreedy(Parameter::exponential(fx(0.3), fx(0.0), fx(0.5))),
        Parameter::exponential(fx(1.0), fx(0.0), fx(0.5)),
        Parameter::fixed(fx(0.25)),
        Parameter::fixed(fx(0.5)),
    );
    gq.handle_terminal();
    assert_eq!(gq.alpha.value(), fx(0.5));
    assert_eq!(gq.beta.value(), fx(0.25));
    assert_eq!(gq.policy, Policy::EpsilonGreedy(Parameter::exponential(fx(0.15), fx(0.0), fx(0.5))));
}

#[test]
fn capabilities_are_enumerated() {
    assert!(Learner::GradientMC.supports(Capability::Batch));
    assert!(!Learner::GradientMC.supports(Capability::Online));
    assert!(Learner::QLambda.supports(Capability::Control));
    assert!(!Learner::QLambda.supports(Capability::Batch));
    assert!(!Learner::SARSA.supports(Capability::Prediction));
}
