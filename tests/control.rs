use rmpfit::control::{stop_reason, Action, Driver, Event, Phase, StepTests};
use rmpfit::types::{MPError, MPSuccess};

fn quiet() -> StepTests {
    StepTests {
        chi_converged: false,
        par_converged: false,
        ftol_exhausted: false,
        xtol_exhausted: false,
        gtol_exhausted: false,
    }
}

#[test]
fn stop_reason_each_variant() {
    let t = quiet();
    assert_eq!(stop_reason(t, 1, 1, 10, 0), None);
    assert_eq!(
        stop_reason(StepTests { chi_converged: true, par_converged: true, ..t }, 1, 1, 10, 0),
        Some(MPSuccess::Both)
    );
    assert_eq!(stop_reason(StepTests { chi_converged: true, ..t }, 1, 1, 10, 0), Some(MPSuccess::Chi));
    assert_eq!(stop_reason(StepTests { par_converged: true, ..t }, 1, 1, 10, 0), Some(MPSuccess::Par));
    assert_eq!(stop_reason(StepTests { ftol_exhausted: true, ..t }, 1, 1, 10, 0), Some(MPSuccess::Ftol));
    assert_eq!(stop_reason(StepTests { xtol_exhausted: true, ..t }, 1, 1, 10, 0), Some(MPSuccess::Xtol));
    assert_eq!(stop_reason(StepTests { gtol_exhausted: true, ..t }, 1, 1, 10, 0), Some(MPSuccess::Gtol));
    assert_eq!(stop_reason(t, 10, 1, 10, 0), Some(MPSuccess::MaxIter));
    assert_eq!(stop_reason(t, 2, 7, 10, 7), Some(MPSuccess::MaxIter));
    assert_eq!(stop_reason(t, 2, 1000, 10, 0), None);
}

#[test]
fn stop_reason_priorities() {
    let all = StepTests {
        chi_converged: false,
        par_converged: false,
        ftol_exhausted: true,
        xtol_exhausted: true,
        gtol_exhausted: true,
    };
    assert_eq!(stop_reason(all, 10, 1, 10, 0), Some(MPSuccess::Gtol));
    assert_eq!(
        stop_reason(StepTests { gtol_exhausted: false, ..all }, 10, 1, 10, 0),
        Some(MPSuccess::Xtol)
    );
    assert_eq!(
        stop_reason(StepTests { chi_converged: true, ..all }, 10, 1, 10, 0),
        Some(MPSuccess::Chi)
    );
}

#[test]
fn zero_iterations_validates_only() {
    let mut d = Driver::new(0, 0, true);
    assert_eq!(d.step(Event::Initial { finite: true }), Action::EstimateErrors(MPSuccess::MaxIter));
    assert_eq!(d.n_iter, 0);
    assert_eq!(d.n_fev, 1);
    assert_eq!(d.phase, Phase::Finished);
}

#[test]
fn non_finite_initial_is_nan() {
    let mut d = Driver::new(5, 0, true);
    assert_eq!(d.step(Event::Initial { finite: false }), Action::Abort(MPError::Nan));
    let mut e = Driver::new(5, 0, false);
    assert_eq!(e.step(Event::Initial { finite: false }), Action::ComputeJacobian);
}

#[test]
fn full_run_counts_work() {
    let mut d = Driver::new(3, 0, true);
    assert_eq!(d.step(Event::Initial { finite: true }), Action::ComputeJacobian);
    assert_eq!(d.n_iter, 1);
    assert_eq!(d.step(Event::Jacobian { evaluations: 2, orthogonal: false }), Action::SolveStep);
    assert_eq!(d.n_fev, 3);
    // rejected trial: retry with the same Jacobian
    let t = StepTests {
        chi_converged: false,
        par_converged: false,
        ftol_exhausted: false,
        xtol_exhausted: false,
        gtol_exhausted: false,
    };
    assert_eq!(d.step(Event::Trial { finite: true, accepted: false, tests: t }), Action::SolveStep);
    assert_eq!((d.n_iter, d.n_fev), (1, 4));
    // accepted trial: new Jacobian
    assert_eq!(d.step(Event::Trial { finite: true, accepted: true, tests: t }), Action::ComputeJacobian);
    assert_eq!((d.n_iter, d.n_fev), (2, 5));
    assert_eq!(d.step(Event::Jacobian { evaluations: 2, orthogonal: false }), Action::SolveStep);
    assert_eq!(
        d.step(Event::Trial { finite: true, accepted: true, tests: t }),
        Action::EstimateErrors(MPSuccess::MaxIter)
    );
    assert_eq!((d.n_iter, d.n_fev), (3, 8));
    assert_eq!(d.phase, Phase::Finished);
}

#[test]
fn orthogonal_gradient_is_dir() {
    let mut d = Driver::new(3, 0, true);
    d.step(Event::Initial { finite: true });
    assert_eq!(
        d.step(Event::Jacobian { evaluations: 1, orthogonal: true }),
        Action::EstimateErrors(MPSuccess::Dir)
    );
}

#[test]
fn non_finite_trial_is_nan() {
    let mut d = Driver::new(3, 0, true);
    d.step(Event::Initial { finite: true });
    d.step(Event::Jacobian { evaluations: 1, orthogonal: false });
    let t = StepTests {
        chi_converged: true,
        par_converged: false,
        ftol_exhausted: false,
        xtol_exhausted: false,
        gtol_exhausted: false,
    };
    assert_eq!(d.step(Event::Trial { finite: false, accepted: true, tests: t }), Action::Abort(MPError::Nan));
}

#[test]
fn evaluation_budget_stops() {
    let mut d = Driver::new(100, 4, true);
    d.step(Event::Initial { finite: true });
    d.step(Event::Jacobian { evaluations: 2, orthogonal: false });
    let t = StepTests {
        chi_converged: false,
        par_converged: false,
        ftol_exhausted: false,
        xtol_exhausted: false,
        gtol_exhausted: false,
    };
    assert_eq!(
        d.step(Event::Trial { finite: true, accepted: false, tests: t }),
        Action::EstimateErrors(MPSuccess::MaxIter)
    );
    assert_eq!(d.n_fev, 4);
}

#[test]
fn out_of_turn_event_is_input() {
    let mut d = Driver::new(3, 0, true);
    assert_eq!(
        d.step(Event::Jacobian { evaluations: 1, orthogonal: false }),
        Action::Abort(MPError::Input)
    );
    assert_eq!(d.phase, Phase::Finished);
    assert_eq!(d.step(Event::Initial { finite: true }), Action::Abort(MPError::Input));
}

#[test]
fn evaluation_count_saturates() {
    let mut d = Driver::new(3, 0, true);
    d.step(Event::Initial { finite: true });
    d.step(Event::Jacobian { evaluations: usize::MAX, orthogonal: false });
    assert_eq!(d.n_fev, usize::MAX);
}
