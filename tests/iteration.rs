use rust_optimal_transport::schedule::{IterationControl, Stop};
use rust_optimal_transport::weights::resolve_weights;
use rust_optimal_transport::distribution::{check_gauss_params, DistributionError};

#[test]
fn control_runs_to_the_cap() {
    let mut c = IterationControl::new(3, 10);
    let mut updates = 0;
    while c.running() {
        c.record(false, false);
        updates += 1;
    }
    assert_eq!(updates, 3);
    assert_eq!(c.count, 3);
    assert_eq!(c.stop_reason(), Some(Stop::Exhausted));
}

#[test]
fn control_tests_every_tenth_update() {
    let mut c = IterationControl::new(1000, 10);
    let mut due = Vec::new();
    for _ in 0..25 {
        due.push(c.residual_due());
        // a residual below the threshold counts only when a test was due
        c.record(false, c.count == 5);
    }
    assert!(c.running());
    let due_at: Vec<usize> = due.iter().enumerate().filter(|(_, d)| **d).map(|(i, _)| i).collect();
    assert_eq!(due_at, vec![0, 10, 20]);
}

#[test]
fn control_converges_on_a_due_test() {
    let mut c = IterationControl::new(1000, 10);
    for _ in 0..10 {
        c.record(false, false);
    }
    assert!(c.residual_due());
    c.record(false, true);
    assert!(!c.running());
    assert_eq!(c.count, 11);
    assert_eq!(c.stop_reason(), Some(Stop::Converged));
}

#[test]
fn control_stops_on_divergence_first() {
    let mut c = IterationControl::new(1000, 1);
    c.record(true, true);
    assert!(!c.running());
    assert_eq!(c.stop_reason(), Some(Stop::Diverged));
}

#[test]
fn control_single_iteration() {
    let mut c = IterationControl::new(1, 10);
    assert!(c.running());
    c.record(false, false);
    assert_eq!(c.stop_reason(), Some(Stop::Exhausted));
}

#[test]
fn empty_weights_become_uniform() {
    let r = resolve_weights(Vec::<f64>::new(), 4, 0.25);
    assert_eq!(r, vec![0.25, 0.25, 0.25, 0.25]);
    let r = resolve_weights(vec![0.1, 0.9], 4, 0.25);
    assert_eq!(r, vec![0.1, 0.9]);
    let r = resolve_weights(Vec::<u32>::new(), 0, 1);
    assert!(r.is_empty());
}

fn oops(r: Result<(), DistributionError>) -> String {
    match r {
        Err(DistributionError::Oops(m)) => m,
        other => panic!("unexpected {:?}", other),
    }
}

#[test]
fn gauss_params_checks() {
    assert!(check_gauss_params(50, 2, 2, 2).is_ok());
    assert_eq!(oops(check_gauss_params(0, 2, 2, 2)), "n is not greater than zero");
    assert_eq!(oops(check_gauss_params(5, 0, 2, 2)), "zero length mean or covariance");
    assert_eq!(oops(check_gauss_params(5, 2, 0, 2)), "zero length mean or covariance");
    assert_eq!(
        oops(check_gauss_params(5, 2, 3, 3)),
        "covariance dimensions do not match mean dimensions"
    );
    // one matching dimension is enough
    assert!(check_gauss_params(5, 2, 2, 3).is_ok());
}
