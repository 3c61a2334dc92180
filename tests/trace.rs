use rsrl::error::Error;
use rsrl::parameter::Parameter;
use rsrl::trace::Trace;

fn fx(v: f64) -> i64 {
    (v * 1_000_000.0).round() as i64
}

#[test]
fn decay_then_update_scales_only_the_old_trace() {
    let mut t = Trace::new(Parameter::fixed(fx(0.9)), 2);
    t.update(&vec![fx(2.0), fx(4.0)]).unwrap();
    t.decay(fx(0.5));
    t.update(&vec![fx(1.0), fx(0.0)]).unwrap();
    assert_eq!(t.get(), vec![fx(2.0), fx(2.0)]);
    assert_ne!(t.get(), vec![fx(1.5), fx(2.0)]);
}

#[test]
fn decay_by_zero_clears() {
    let mut t = Trace::new(Parameter::fixed(0), 3);
    t.update(&vec![5, -7, 9]).unwrap();
    t.decay(0);
    assert_eq!(t.get(), vec![0, 0, 0]);
    assert_eq!(t.dim(), 3);
}

#[test]
fn update_with_wrong_dimension_fails() {
    let mut t = Trace::new(Parameter::fixed(0), 3);
    t.update(&vec![1, 2, 3]).unwrap();
    assert_eq!(
        t.update(&vec![1, 2]),
        Err(Error::DimensionMismatch { expected: 3, found: 2 })
    );
    assert_eq!(t.get(), vec![1, 2, 3]);
}
