use rsrl::partitions::{Partition, Partitions, RegularSpace};

fn fx(v: f64) -> i64 {
    (v * 1_000_000.0).round() as i64
}

fn grid(n_dims: usize) -> RegularSpace {
    let mut ds = RegularSpace::new();
    for _ in 0..n_dims {
        ds = ds.push(Partition::new(fx(0.0), fx(9.0), 10));
    }
    ds
}

#[test]
fn test_update_eval() {
    let mut t = Partitions::new(grid(1), 1).unwrap();

    t.update_scalar(&vec![fx(1.5)], fx(25.5)).unwrap();

    let out = t.evaluate_scalar(&vec![fx(1.5)]).unwrap();
    assert_eq!(out, fx(25.5));

    t.update_scalar(&vec![fx(1.5)], fx(-12.75)).unwrap();

    let out = t.evaluate_scalar(&vec![fx(1.5)]).unwrap();
    assert_eq!(out, fx(12.75));
}

#[test]
fn test_collisions() {
    let mut t = Partitions::new(grid(1), 1).unwrap();

    t.update(&vec![fx(0.5)], &vec![fx(1.2)]).unwrap();

    for value in vec![0.2, 0.5, 0.8] {
        let out = t.evaluate_scalar(&vec![fx(value)]).unwrap();
        assert_eq!(out, fx(1.2));
    }
}

#[test]
fn test_1d() {
    let mut t = Partitions::new(grid(1), 1).unwrap();

    for i in 0..10 {
        let input: Vec<i64> = vec![fx(i as u32 as f64)];

        let out = t.evaluate_scalar(&input).unwrap();
        assert_eq!(out, fx(0.0));

        t.update(&input, &vec![fx(1.0)]).unwrap();

        let out = t.evaluate_scalar(&input).unwrap();
        assert_eq!(out, fx(1.0));
    }
}

#[test]
fn test_2d() {
    let mut t = Partitions::new(grid(2), 1).unwrap();

    for i in 0..10 {
        for j in 0..10 {
            let input: Vec<i64> = vec![fx(i as u32 as f64), fx(j as u32 as f64)];

            let out = t.evaluate_scalar(&input).unwrap();
            assert_eq!(out, fx(0.0));

            t.update(&input, &vec![fx(1.0)]).unwrap();

            let out = t.evaluate_scalar(&input).unwrap();
            assert_eq!(out, fx(1.0));
        }
    }
}

#[test]
fn test_3d() {
    let mut t = Partitions::new(grid(3), 1).unwrap();

    for i in 0..10 {
        for j in 0..10 {
            for k in 0..10 {
                let input: Vec<i64> =
                    vec![fx(i as u32 as f64), fx(j as u32 as f64), fx(k as u32 as f64)];

                let out = t.evaluate_scalar(&input).unwrap();
                assert_eq!(out, fx(0.0));

                t.update(&input, &vec![fx(1.0)]).unwrap();

                let out = t.evaluate_scalar(&input).unwrap();
                assert_eq!(out, fx(1.0));
            }
        }
    }
}

#[test]
fn partition_clips_out_of_range_values() {
    let p = Partition::new(fx(0.0), fx(9.0), 10);
    assert_eq!(p.to_partition(fx(-5.0)), 0);
    assert_eq!(p.to_partition(fx(9.0)), 9);
    assert_eq!(p.to_partition(fx(100.0)), 9);
    assert_eq!(p.to_partition(fx(4.5)), 5);
}

#[test]
fn hash_makes_first_dimension_fastest() {
    let t = Partitions::new(grid(2), 1).unwrap();
    assert_eq!(t.hash(&vec![fx(3.0), fx(0.0)]).unwrap(), 3);
    assert_eq!(t.hash(&vec![fx(0.0), fx(2.0)]).unwrap(), 20);
    assert_eq!(t.n_features(), 100);
}

#[test]
fn phi_is_one_hot() {
    let t = Partitions::new(grid(1), 2).unwrap();
    let p = t.phi(&vec![fx(2.0)]).unwrap();
    let mut expected = vec![0i64; 10];
    expected[2] = 1_000_000;
    assert_eq!(p, expected);
}

#[test]
fn wrong_input_length_is_a_dimension_mismatch() {
    let mut t = Partitions::new(grid(2), 1).unwrap();
    let e = t.evaluate(&vec![fx(1.0)]).unwrap_err();
    assert_eq!(e, rsrl::error::Error::DimensionMismatch { expected: 2, found: 1 });
    let e = t.update(&vec![fx(1.0), fx(1.0)], &vec![1, 2]).unwrap_err();
    assert_eq!(e, rsrl::error::Error::DimensionMismatch { expected: 1, found: 2 });
}

#[test]
fn empty_space_is_refused() {
    assert!(Partitions::new(RegularSpace::new(), 1).is_none());
    let inverted = RegularSpace::new().push(Partition { lb: 5, ub: 1, density: 3 });
    assert!(Partitions::new(inverted, 1).is_none());
}

#[test]
fn phi_level_updates_follow_the_features() {
    let mut t = Partitions::new(grid(1), 2).unwrap();
    let phi = vec![fx(1.0), fx(0.5), 0, 0, 0, 0, 0, 0, 0, 0];
    t.update_action_phi(&phi, 1, fx(2.0));
    assert_eq!(t.evaluate_action(&vec![fx(0.0)], 1).unwrap(), fx(2.0));
    assert_eq!(t.evaluate_action(&vec![fx(1.0)], 1).unwrap(), fx(1.0));
    assert_eq!(t.evaluate_action_phi(&phi, 1), fx(2.5));
    assert_eq!(t.evaluate_phi(&phi), vec![0, fx(2.5)]);
    assert_eq!(t.weights()[0], vec![0i64; 10]);
}
