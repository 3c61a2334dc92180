use rsrl::parameter::Parameter;

fn fx(v: f64) -> i64 {
    (v * 1_000_000.0).round() as i64
}

#[test]
fn exponential_decreasing_is_monotone_and_converges() {
    let mut p = Parameter::exponential(fx(0.3), fx(0.001), fx(0.99));
    let mut prev = p.value();
    assert_eq!(prev, fx(0.3));
    for _ in 0..2000 {
        p = p.step();
        assert!(p.value() <= prev);
        assert!(p.value() >= fx(0.001));
        prev = p.value();
    }
    assert!((p.value() - fx(0.001)).abs() <= 10);
}

#[test]
fn exponential_increasing_is_monotone() {
    let mut p = Parameter::exponential(fx(0.1), fx(0.9), fx(0.5));
    let mut prev = p.value();
    for _ in 0..100 {
        p = p.step();
        assert!(p.value() >= prev);
        assert!(p.value() <= fx(0.9));
        prev = p.value();
    }
    assert_eq!(p.value(), fx(0.9));
}

#[test]
fn exponential_step_exact_value() {
    let p = Parameter::exponential(fx(1.0), fx(0.0), fx(0.5)).step();
    assert_eq!(p.value(), fx(0.5));
    let p = Parameter::exponential(fx(0.3), fx(0.1), fx(0.5)).step();
    assert_eq!(p.value(), fx(0.2));
}

#[test]
fn fixed_never_changes() {
    let p = Parameter::fixed(fx(0.7));
    assert_eq!(p.step().step().value(), fx(0.7));
}
