use vstd::prelude::*;

verus! {

/// Sidedness of the finite-difference derivative of one parameter.
#[derive(Clone, Copy, Debug, PartialEq, Eq, Structural)]
pub enum MPSide {
    /// one-sided derivative, direction chosen automatically
    Auto,
    /// one-sided derivative (f(x+h) - f(x)  )/h
    Right,
    /// one-sided derivative (f(x)   - f(x-h))/h
    Left,
    /// two-sided derivative (f(x+h) - f(x-h))/(2*h)
    Both,
    /// user-computed analytical derivatives
    User,
}

/// Ways in which a fit fails.
#[derive(Clone, Copy, Debug, PartialEq, Eq, Structural)]
pub enum MPError {
    /// General input parameter error
    Input,
    /// User function produced non-finite values
    Nan,
    /// No user data points were supplied
    Empty,
    /// No free parameters
    NoFree,
    /// Initial values inconsistent with constraints
    InitBounds,
    /// Initial constraints inconsistent
    Bounds,
    /// Not enough degrees of freedom
    DoF,
}

/// Reasons for which a fit stops successfully.
#[derive(Clone, Copy, Debug, PartialEq, Eq, Structural)]
pub enum MPSuccess {
    /// Convergence in chi-square value
    Chi,
    /// Convergence in parameter value
    Par,
    /// Convergence in both chi-square and parameter
    Both,
    /// Convergence in orthogonality
    Dir,
    /// Maximum number of iterations reached
    MaxIter,
    /// ftol is too small; no further improvement
    Ftol,
    /// xtol is too small; no further improvement
    Xtol,
    /// gtol is too small; no further improvement
    Gtol,
}

} // verus!
