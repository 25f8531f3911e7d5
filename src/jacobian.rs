use vstd::prelude::*;
use crate::types::MPSide;

verus! {

/// How one column of the Jacobian is obtained.
#[derive(Clone, Copy, Debug, PartialEq, Eq, Structural)]
pub enum Scheme {
    /// the parameter is pegged at a bound: the column is zero
    Zero,
    /// (f(x+h) - f(x))/h
    Forward,
    /// (f(x) - f(x-h))/h
    Backward,
    /// (f(x+h) - f(x-h))/(2h)
    Central,
    /// the column is supplied by the user function
    Supplied,
}

/// The scheme for a column: zero for a pegged parameter, else the declared
/// sidedness, where an automatic one-sided derivative steps backward when a
/// forward step would cross the active upper limit.
pub open spec fn scheme_for(side: MPSide, pegged: bool, forward_crosses_upper: bool) -> Scheme {
    if pegged {
        Scheme::Zero
    } else {
        match side {
            MPSide::Auto => if forward_crosses_upper {
                Scheme::Backward
            } else {
                Scheme::Forward
            },
            MPSide::Right => Scheme::Forward,
            MPSide::Left => Scheme::Backward,
            MPSide::Both => Scheme::Central,
            MPSide::User => Scheme::Supplied,
        }
    }
}

/// Chooses how to obtain one column of the Jacobian.
pub fn column_scheme(side: MPSide, pegged: bool, forward_crosses_upper: bool) -> (r: Scheme)
    ensures
        r == scheme_for(side, pegged, forward_crosses_upper),
{
    if pegged {
        return Scheme::Zero;
    }
    match side {
        MPSide::Auto => if forward_crosses_upper {
            Scheme::Backward
        } else {
            Scheme::Forward
        },
        MPSide::Right => Scheme::Forward,
        MPSide::Left => Scheme::Backward,
        MPSide::Both => Scheme::Central,
        MPSide::User => Scheme::Supplied,
    }
}

/// Calls of the user function that a scheme makes beyond the residuals
/// already known at the current point.
pub open spec fn scheme_cost(s: Scheme) -> nat {
    match s {
        Scheme::Forward | Scheme::Backward => 1,
        Scheme::Central => 2,
        Scheme::Zero | Scheme::Supplied => 0,
    }
}

/// Calls of the user function that a whole Jacobian makes.
pub open spec fn jacobian_cost_of(schemes: Seq<Scheme>) -> nat
    decreases schemes.len(),
{
    if schemes.len() == 0 {
        0
    } else {
        jacobian_cost_of(schemes.drop_last()) + scheme_cost(schemes.last())
    }
}

/// Counts the calls of the user function that a Jacobian makes with the
/// given column schemes.
pub fn jacobian_cost(schemes: &Vec<Scheme>) -> (r: usize)
    requires
        schemes.len() <= usize::MAX / 2,
    ensures
        r == jacobian_cost_of(schemes@),
{
    let mut r: usize = 0;
    let mut i: usize = 0;
    while i < schemes.len()
        invariant
            i <= schemes.len() <= usize::MAX / 2,
            r == jacobian_cost_of(schemes@.take(i as int)),
            r <= 2 * i,
        decreases schemes.len() - i,
    {
        assert(schemes@.take(i + 1).drop_last() =~= schemes@.take(i as int));
        let s = schemes[i];
        match s {
            Scheme::Forward | Scheme::Backward => r += 1,
            Scheme::Central => r += 2,
            Scheme::Zero | Scheme::Supplied => {},
        }
        i += 1;
    }
    assert(schemes@.take(schemes.len() as int) =~= schemes@);
    r
}

/// Where the finite-difference step of a parameter comes from.
#[derive(Clone, Copy, Debug, PartialEq, Eq, Structural)]
pub enum StepRule {
    /// sqrt(max(epsfcn, machine epsilon)) * |x|
    Scaled,
    /// the declared absolute step
    Absolute,
    /// |rel_step * x|
    Relative,
    /// sqrt(max(epsfcn, machine epsilon)), where the chosen step is zero
    Base,
}

/// A declared relative step overrides a declared absolute step, which
/// overrides the scaled default; a step that comes out zero falls back to
/// the base value. `chosen_is_zero` tells whether the step that the earlier
/// rules give is zero; an absolute step is declared only when positive.
pub open spec fn step_rule_for(step_declared: bool, rel_step_declared: bool, chosen_is_zero: bool) -> StepRule {
    if rel_step_declared {
        if chosen_is_zero {
            StepRule::Base
        } else {
            StepRule::Relative
        }
    } else if step_declared {
        StepRule::Absolute
    } else if chosen_is_zero {
        StepRule::Base
    } else {
        StepRule::Scaled
    }
}

/// The rule that one step before the fallback would use.
pub open spec fn preferred_rule(step_declared: bool, rel_step_declared: bool) -> StepRule {
    if rel_step_declared {
        StepRule::Relative
    } else if step_declared {
        StepRule::Absolute
    } else {
        StepRule::Scaled
    }
}

/// Picks the rule for the step before the zero check.
pub fn preferred_step_rule(step_declared: bool, rel_step_declared: bool) -> (r: StepRule)
    ensures
        r == preferred_rule(step_declared, rel_step_declared),
{
    if rel_step_declared {
        StepRule::Relative
    } else if step_declared {
        StepRule::Absolute
    } else {
        StepRule::Scaled
    }
}

/// Picks the rule for the step of one parameter, given whether the step of
/// the preferred rule came out zero.
pub fn step_rule(step_declared: bool, rel_step_declared: bool, chosen_is_zero: bool) -> (r: StepRule)
    ensures
        r == step_rule_for(step_declared, rel_step_declared, chosen_is_zero),
        r == StepRule::Base || r == preferred_rule(step_declared, rel_step_declared),
{
    if rel_step_declared {
        if chosen_is_zero {
            StepRule::Base
        } else {
            StepRule::Relative
        }
    } else if step_declared {
        StepRule::Absolute
    } else if chosen_is_zero {
        StepRule::Base
    } else {
        StepRule::Scaled
    }
}

} // verus!
