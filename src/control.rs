use vstd::prelude::*;
use crate::types::{MPError, MPSuccess};

verus! {

/// Outcomes of the convergence tests after one trial step, which the caller
/// evaluates in floating point from the actual and predicted reductions,
/// the trust-region radius and the gradient norm.
#[derive(Clone, Copy, Debug, PartialEq, Eq, Structural)]
pub struct StepTests {
    /// the relative reduction of the sum of squares is within `ftol`
    pub chi_converged: bool,
    /// the relative change of the parameters is within `xtol`
    pub par_converged: bool,
    /// the sum of squares can no longer improve at machine precision
    pub ftol_exhausted: bool,
    /// the parameters can no longer change at machine precision
    pub xtol_exhausted: bool,
    /// the residual is orthogonal to the Jacobian at machine precision
    pub gtol_exhausted: bool,
}

/// The iteration or the evaluation budget is used up; a budget of 0
/// evaluations means no limit.
pub open spec fn budget_spent(n_iter: nat, n_fev: nat, max_iter: nat, max_fev: nat) -> bool {
    (max_iter > 0 && n_iter >= max_iter) || (max_fev > 0 && n_fev >= max_fev)
}

/// Why the fit stops after a trial step, if it does: convergence first,
/// then exhausted tolerances, then the budget.
pub open spec fn stop_after_step(
    t: StepTests,
    n_iter: nat,
    n_fev: nat,
    max_iter: nat,
    max_fev: nat,
) -> Option<MPSuccess> {
    if t.chi_converged && t.par_converged {
        Some(MPSuccess::Both)
    } else if t.chi_converged {
        Some(MPSuccess::Chi)
    } else if t.par_converged {
        Some(MPSuccess::Par)
    } else if t.gtol_exhausted {
        Some(MPSuccess::Gtol)
    } else if t.xtol_exhausted {
        Some(MPSuccess::Xtol)
    } else if t.ftol_exhausted {
        Some(MPSuccess::Ftol)
    } else if budget_spent(n_iter, n_fev, max_iter, max_fev) {
        Some(MPSuccess::MaxIter)
    } else {
        None
    }
}

/// Decides whether the fit stops after a trial step, and why.
pub fn stop_reason(t: StepTests, n_iter: usize, n_fev: usize, max_iter: usize, max_fev: usize) -> (r:
    Option<MPSuccess>)
    ensures
        r == stop_after_step(t, n_iter as nat, n_fev as nat, max_iter as nat, max_fev as nat),
{
    if t.chi_converged && t.par_converged {
        Some(MPSuccess::Both)
    } else if t.chi_converged {
        Some(MPSuccess::Chi)
    } else if t.par_converged {
        Some(MPSuccess::Par)
    } else if t.gtol_exhausted {
        Some(MPSuccess::Gtol)
    } else if t.xtol_exhausted {
        Some(MPSuccess::Xtol)
    } else if t.ftol_exhausted {
        Some(MPSuccess::Ftol)
    } else if (max_iter > 0 && n_iter >= max_iter) || (max_fev > 0 && n_fev >= max_fev) {
        Some(MPSuccess::MaxIter)
    } else {
        None
    }
}

/// What the outer iteration waits for next.
#[derive(Clone, Copy, Debug, PartialEq, Eq, Structural)]
pub enum Phase {
    /// the residuals at the initial point
    AwaitInitial,
    /// a Jacobian at the current point
    AwaitJacobian,
    /// the residuals at a trial point
    AwaitTrial,
    /// nothing: the fit has ended
    Finished,
}

/// What the caller reports back after carrying out an action.
#[derive(Clone, Copy, Debug, PartialEq, Eq, Structural)]
pub enum Event {
    /// The residuals at the initial point were computed.
    Initial { finite: bool },
    /// A Jacobian was estimated with `evaluations` calls of the user
    /// function; `orthogonal` tells whether the residual is orthogonal to
    /// its columns within `gtol`.
    Jacobian { evaluations: usize, orthogonal: bool },
    /// A trial step was evaluated; `accepted` tells whether its reduction
    /// ratio was favourable enough to move to the trial point.
    Trial { finite: bool, accepted: bool, tests: StepTests },
}

/// What the caller does next.
#[derive(Clone, Copy, Debug, PartialEq, Eq, Structural)]
pub enum Action {
    /// estimate a Jacobian at the current point
    ComputeJacobian,
    /// solve for a step within the current trust region and evaluate the
    /// user function at the trial point
    SolveStep,
    /// stop, and estimate the parameter errors at the current point
    EstimateErrors(MPSuccess),
    /// stop with an error
    Abort(MPError),
}

/// Counters and budget of the outer iteration of one fit.
#[derive(Clone, Copy, Debug, PartialEq, Eq, Structural)]
pub struct Driver {
    /// iteration budget; 0 asks for no iteration at all
    pub max_iter: usize,
    /// evaluation budget; 0 means no limit
    pub max_fev: usize,
    /// non-finite residuals end the fit
    pub check_finite: bool,
    /// current iteration, counted from 1 once iterating starts
    pub n_iter: usize,
    /// calls of the user function so far
    pub n_fev: usize,
    pub phase: Phase,
}

/// `a + b`, held at `usize::MAX`.
pub open spec fn sat_add(a: usize, b: usize) -> usize {
    if a + b > usize::MAX {
        usize::MAX
    } else {
        (a + b) as usize
    }
}

fn saturating_sum(a: usize, b: usize) -> (r: usize)
    ensures
        r == sat_add(a, b),
{
    if a > usize::MAX - b {
        usize::MAX
    } else {
        a + b
    }
}

pub open spec fn with_counts(d: Driver, n_iter: usize, n_fev: usize, phase: Phase) -> Driver {
    Driver {
        max_iter: d.max_iter,
        max_fev: d.max_fev,
        check_finite: d.check_finite,
        n_iter,
        n_fev,
        phase,
    }
}

/// The state after `ev` and the action it calls for. An event that the
/// current phase does not wait for ends the fit with `Input`.
pub open spec fn transition(d: Driver, ev: Event) -> (Driver, Action) {
    match ev {
        Event::Initial { finite } => {
            if d.phase != Phase::AwaitInitial {
                (with_counts(d, d.n_iter, d.n_fev, Phase::Finished), Action::Abort(MPError::Input))
            } else if d.check_finite && !finite {
                (with_counts(d, d.n_iter, 1, Phase::Finished), Action::Abort(MPError::Nan))
            } else if d.max_iter == 0 {
                (
                    with_counts(d, d.n_iter, 1, Phase::Finished),
                    Action::EstimateErrors(MPSuccess::MaxIter),
                )
            } else {
                (with_counts(d, 1, 1, Phase::AwaitJacobian), Action::ComputeJacobian)
            }
        },
        Event::Jacobian { evaluations, orthogonal } => {
            if d.phase != Phase::AwaitJacobian {
                (with_counts(d, d.n_iter, d.n_fev, Phase::Finished), Action::Abort(MPError::Input))
            } else if orthogonal {
                (
                    with_counts(d, d.n_iter, sat_add(d.n_fev, evaluations), Phase::Finished),
                    Action::EstimateErrors(MPSuccess::Dir),
                )
            } else {
                (
                    with_counts(d, d.n_iter, sat_add(d.n_fev, evaluations), Phase::AwaitTrial),
                    Action::SolveStep,
                )
            }
        },
        Event::Trial { finite, accepted, tests } => {
            let n_iter = if accepted {
                sat_add(d.n_iter, 1)
            } else {
                d.n_iter
            };
            let n_fev = sat_add(d.n_fev, 1);
            if d.phase != Phase::AwaitTrial {
                (with_counts(d, d.n_iter, d.n_fev, Phase::Finished), Action::Abort(MPError::Input))
            } else if d.check_finite && !finite {
                (with_counts(d, n_iter, n_fev, Phase::Finished), Action::Abort(MPError::Nan))
            } else {
                match stop_after_step(
                    tests,
                    n_iter as nat,
                    n_fev as nat,
                    d.max_iter as nat,
                    d.max_fev as nat,
                ) {
                    Some(s) => (
                        with_counts(d, n_iter, n_fev, Phase::Finished),
                        Action::EstimateErrors(s),
                    ),
                    None => {
                        if accepted {
                            (with_counts(d, n_iter, n_fev, Phase::AwaitJacobian), Action::ComputeJacobian)
                        } else {
                            (with_counts(d, n_iter, n_fev, Phase::AwaitTrial), Action::SolveStep)
                        }
                    },
                }
            }
        },
    }
}

/// With an iteration budget of 0 a fit only validates: once the residuals
/// at the initial point come back finite, it stops at once to estimate the
/// errors there, after no iteration and that single evaluation.
pub proof fn lemma_zero_budget_validates_only(max_fev: usize, check_finite: bool)
    ensures
        ({
            let d = Driver {
                max_iter: 0,
                max_fev,
                check_finite,
                n_iter: 0,
                n_fev: 0,
                phase: Phase::AwaitInitial,
            };
            let (d1, a) = transition(d, Event::Initial { finite: true });
            &&& a == Action::EstimateErrors(MPSuccess::MaxIter)
            &&& d1.phase == Phase::Finished
            &&& d1.n_iter == 0
            &&& d1.n_fev == 1
        }),
{
}

/// A trial step after which the fit goes on leaves the iteration and
/// evaluation budgets unspent.
pub proof fn lemma_continues_within_budget(d: Driver, ev: Event)
    requires
        ev is Trial,
        transition(d, ev).0.phase != Phase::Finished,
    ensures
        !budget_spent(
            transition(d, ev).0.n_iter as nat,
            transition(d, ev).0.n_fev as nat,
            d.max_iter as nat,
            d.max_fev as nat,
        ),
{
}

impl Driver {
    /// A driver that waits for the residuals at the initial point.
    pub fn new(max_iter: usize, max_fev: usize, check_finite: bool) -> (r: Driver)
        ensures
            r == (Driver {
                max_iter,
                max_fev,
                check_finite,
                n_iter: 0,
                n_fev: 0,
                phase: Phase::AwaitInitial,
            }),
    {
        Driver { max_iter, max_fev, check_finite, n_iter: 0, n_fev: 0, phase: Phase::AwaitInitial }
    }

    /// Takes in what the caller did and tells it what to do next.
    pub fn step(&mut self, ev: Event) -> (a: Action)
        ensures
            (*final(self), a) == transition(*old(self), ev),
    {
        match ev {
            Event::Initial { finite } => {
                if self.phase != Phase::AwaitInitial {
                    self.phase = Phase::Finished;
                    Action::Abort(MPError::Input)
                } else if self.check_finite && !finite {
                    self.n_fev = 1;
                    self.phase = Phase::Finished;
                    Action::Abort(MPError::Nan)
                } else if self.max_iter == 0 {
                    self.n_fev = 1;
                    self.phase = Phase::Finished;
                    Action::EstimateErrors(MPSuccess::MaxIter)
                } else {
                    self.n_fev = 1;
                    self.n_iter = 1;
                    self.phase = Phase::AwaitJacobian;
                    Action::ComputeJacobian
                }
            },
            Event::Jacobian { evaluations, orthogonal } => {
                if self.phase != Phase::AwaitJacobian {
                    self.phase = Phase::Finished;
                    Action::Abort(MPError::Input)
                } else {
                    self.n_fev = saturating_sum(self.n_fev, evaluations);
                    if orthogonal {
                        self.phase = Phase::Finished;
                        Action::EstimateErrors(MPSuccess::Dir)
                    } else {
                        self.phase = Phase::AwaitTrial;
                        Action::SolveStep
                    }
                }
            },
            Event::Trial { finite, accepted, tests } => {
                if self.phase != Phase::AwaitTrial {
                    self.phase = Phase::Finished;
                    return Action::Abort(MPError::Input);
                }
                if accepted {
                    self.n_iter = saturating_sum(self.n_iter, 1);
                }
                self.n_fev = saturating_sum(self.n_fev, 1);
                if self.check_finite && !finite {
                    self.phase = Phase::Finished;
                    return Action::Abort(MPError::Nan);
                }
                match stop_reason(tests, self.n_iter, self.n_fev, self.max_iter, self.max_fev) {
                    Some(s) => {
                        self.phase = Phase::Finished;
                        Action::EstimateErrors(s)
                    },
                    None => {
                        if accepted {
                            self.phase = Phase::AwaitJacobian;
                            Action::ComputeJacobian
                        } else {
                            self.phase = Phase::AwaitTrial;
                            Action::SolveStep
                        }
                    },
                }
            },
        }
    }
}

} // verus!
