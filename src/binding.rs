use vstd::prelude::*;
use crate::types::MPError;

verus! {

/// What validation reads of one parameter's constraint: its flags, and the
/// outcome of the comparisons between its initial value and its limits,
/// which the caller makes in floating point.
#[derive(Clone, Copy, Debug, PartialEq, Eq, Structural)]
pub struct ParamCheck {
    /// the parameter is held at its initial value
    pub fixed: bool,
    /// the lower limit is active
    pub limited_low: bool,
    /// the upper limit is active
    pub limited_up: bool,
    /// the initial value is below the lower limit
    pub below_low: bool,
    /// the initial value is above the upper limit
    pub above_up: bool,
    /// the lower limit is above the upper limit
    pub limits_crossed: bool,
}

/// The initial value violates one of the parameter's active limits.
pub open spec fn starts_outside(p: ParamCheck) -> bool {
    (p.limited_low && p.below_low) || (p.limited_up && p.above_up)
}

/// Both limits are active and the lower one lies above the upper one.
pub open spec fn limits_inconsistent(p: ParamCheck) -> bool {
    p.limited_low && p.limited_up && p.limits_crossed
}

/// Positions of the parameters that are not fixed, in increasing order.
pub open spec fn free_positions(c: Seq<ParamCheck>) -> Seq<usize>
    decreases c.len(),
{
    if c.len() == 0 {
        Seq::empty()
    } else {
        let rest = free_positions(c.drop_last());
        if c.last().fixed {
            rest
        } else {
            rest.push((c.len() - 1) as usize)
        }
    }
}

/// Every position `0..n`, for a fit without constraints.
pub open spec fn all_positions(n: nat) -> Seq<usize> {
    Seq::new(n, |i: int| i as usize)
}

/// Some free parameter starts outside its own limits.
pub open spec fn some_free_starts_outside(c: Seq<ParamCheck>) -> bool {
    exists|i: int| 0 <= i < c.len() && !c[i].fixed && starts_outside(#[trigger] c[i])
}

/// Some parameter has inconsistent limits.
pub open spec fn some_limits_inconsistent(c: Seq<ParamCheck>) -> bool {
    exists|i: int| 0 <= i < c.len() && limits_inconsistent(#[trigger] c[i])
}

/// The constraints of a call, seen as a sequence when present.
pub open spec fn checks_view(checks: Option<&Vec<ParamCheck>>) -> Option<Seq<ParamCheck>> {
    match checks {
        Some(c) => Some(c@),
        None => None,
    }
}

/// Outcome of binding `n_par` parameters to `m` data points: the positions
/// of the free parameters, or the first validation failure in this order:
/// no data, an empty or mis-sized constraint array, no free parameter,
/// fewer data points than free parameters, a free parameter that starts
/// outside its limits, a parameter whose limits are inconsistent.
pub open spec fn binding_outcome(
    m: nat,
    n_par: nat,
    checks: Option<Seq<ParamCheck>>,
) -> Result<Seq<usize>, MPError> {
    if m == 0 {
        Err(MPError::Empty)
    } else {
        match checks {
            None => {
                if n_par == 0 {
                    Err(MPError::NoFree)
                } else if m < n_par {
                    Err(MPError::DoF)
                } else {
                    Ok(all_positions(n_par))
                }
            },
            Some(c) => {
                if c.len() == 0 {
                    Err(MPError::Empty)
                } else if c.len() != n_par {
                    Err(MPError::Input)
                } else if free_positions(c).len() == 0 {
                    Err(MPError::NoFree)
                } else if m < free_positions(c).len() {
                    Err(MPError::DoF)
                } else if some_free_starts_outside(c) {
                    Err(MPError::InitBounds)
                } else if some_limits_inconsistent(c) {
                    Err(MPError::Bounds)
                } else {
                    Ok(free_positions(c))
                }
            },
        }
    }
}

/// A free position list lists exactly the parameters that are not fixed,
/// each below `c.len()`, in strictly increasing order.
pub proof fn lemma_free_positions(c: Seq<ParamCheck>)
    requires
        c.len() <= usize::MAX,
    ensures
        free_positions(c).len() <= c.len(),
        forall|k: int|
            0 <= k < free_positions(c).len() ==> #[trigger] free_positions(c)[k] < c.len(),
        forall|k1: int, k2: int|
            0 <= k1 < k2 < free_positions(c).len() ==> free_positions(c)[k1]
                < free_positions(c)[k2],
        forall|p: usize|
            free_positions(c).contains(p) <==> (p < c.len() && !c[p as int].fixed),
    decreases c.len(),
{
    if c.len() > 0 {
        let d = c.drop_last();
        lemma_free_positions(d);
        let rest = free_positions(d);
        let n = (c.len() - 1) as usize;
        assert forall|p: usize|
            free_positions(c).contains(p) <==> (p < c.len() && !c[p as int].fixed) by {
            if p < n {
                assert(d[p as int] == c[p as int]);
            }
            if !c.last().fixed {
                let f = rest.push(n);
                if rest.contains(p) {
                    let k = choose|k: int| 0 <= k < rest.len() && rest[k] == p;
                    assert(f[k] == p);
                }
                if f.contains(p) && p != n {
                    let k = choose|k: int| 0 <= k < f.len() && f[k] == p;
                    assert(rest[k] == p);
                }
                if p == n {
                    assert(f[rest.len() as int] == p);
                }
            }
        }
    }
}

/// Number of free parameters a binding works with.
pub open spec fn free_count(n_par: nat, checks: Option<Seq<ParamCheck>>) -> nat {
    match checks {
        Some(c) => free_positions(c).len(),
        None => n_par,
    }
}

/// The constraint array is absent, or describes each of `n_par > 0`
/// parameters.
pub open spec fn well_shaped(n_par: nat, checks: Option<Seq<ParamCheck>>) -> bool {
    match checks {
        Some(c) => c.len() == n_par && n_par > 0 && c.len() <= usize::MAX,
        None => true,
    }
}

/// With data present, well-shaped constraints and at least one free
/// parameter, the degrees-of-freedom error comes exactly when there are
/// fewer data points than free parameters.
pub proof fn lemma_dof_exactly_when_short(m: nat, n_par: nat, checks: Option<Seq<ParamCheck>>)
    requires
        m > 0,
        well_shaped(n_par, checks),
        free_count(n_par, checks) > 0,
    ensures
        (binding_outcome(m, n_par, checks) == Err::<Seq<usize>, MPError>(MPError::DoF)) <==> m
            < free_count(n_par, checks),
{
}

/// When every parameter is fixed, binding fails with `NoFree` whatever the
/// data, as long as there are data points at all.
pub proof fn lemma_all_fixed_no_free(m: nat, c: Seq<ParamCheck>)
    requires
        m > 0,
        0 < c.len() <= usize::MAX,
        forall|i: int| 0 <= i < c.len() ==> (#[trigger] c[i]).fixed,
    ensures
        binding_outcome(m, c.len(), Some(c)) == Err::<Seq<usize>, MPError>(MPError::NoFree),
{
    lemma_free_positions(c);
    let f = free_positions(c);
    if f.len() > 0 {
        assert(f.contains(f[0]));
    }
}

/// Without data points binding fails with `Empty`, whatever the parameters.
pub proof fn lemma_no_data_empty(n_par: nat, checks: Option<Seq<ParamCheck>>)
    ensures
        binding_outcome(0, n_par, checks) == Err::<Seq<usize>, MPError>(MPError::Empty),
{
}

/// A free parameter that starts outside its own limits makes binding fail
/// with `InitBounds`, once the earlier checks (data present, constraints
/// well-shaped, enough data points) pass.
pub proof fn lemma_free_outside_init_bounds(m: nat, c: Seq<ParamCheck>, i: int)
    requires
        c.len() <= usize::MAX,
        0 <= i < c.len(),
        !c[i].fixed,
        starts_outside(c[i]),
        m > 0,
        m >= free_positions(c).len(),
    ensures
        binding_outcome(m, c.len(), Some(c)) == Err::<Seq<usize>, MPError>(MPError::InitBounds),
{
    lemma_free_positions(c);
    assert(free_positions(c).contains(i as usize));
}

/// A fixed parameter that starts outside its limits never causes
/// `InitBounds`: only free parameters are held to their limits.
pub proof fn lemma_fixed_outside_never_init_bounds(m: nat, c: Seq<ParamCheck>)
    requires
        forall|i: int| 0 <= i < c.len() && starts_outside(#[trigger] c[i]) ==> c[i].fixed,
    ensures
        binding_outcome(m, c.len(), Some(c)) != Err::<Seq<usize>, MPError>(MPError::InitBounds),
{
}

/// Collects the positions of the parameters that are not fixed.
pub fn free_indices(checks: &Vec<ParamCheck>) -> (r: Vec<usize>)
    ensures
        r@ == free_positions(checks@),
{
    let mut r: Vec<usize> = Vec::new();
    let mut i: usize = 0;
    while i < checks.len()
        invariant
            i <= checks.len(),
            r@ == free_positions(checks@.take(i as int)),
        decreases checks.len() - i,
    {
        assert(checks@.take(i + 1).drop_last() =~= checks@.take(i as int));
        if !checks[i].fixed {
            r.push(i);
        }
        i += 1;
    }
    assert(checks@.take(checks.len() as int) =~= checks@);
    r
}

/// Lists every position `0..n`.
pub fn all_indices(n: usize) -> (r: Vec<usize>)
    ensures
        r@ == all_positions(n as nat),
{
    let mut r: Vec<usize> = Vec::new();
    let mut i: usize = 0;
    while i < n
        invariant
            i <= n,
            r@ =~= all_positions(i as nat),
        decreases n - i,
    {
        r.push(i);
        i += 1;
    }
    r
}

/// Tells whether some free parameter starts outside its limits.
fn any_free_starts_outside(checks: &Vec<ParamCheck>) -> (r: bool)
    ensures
        r == some_free_starts_outside(checks@),
{
    let mut i: usize = 0;
    while i < checks.len()
        invariant
            i <= checks.len(),
            forall|j: int| 0 <= j < i ==> !(!checks@[j].fixed && starts_outside(#[trigger] checks@[j])),
        decreases checks.len() - i,
    {
        let p = checks[i];
        if !p.fixed && ((p.limited_low && p.below_low) || (p.limited_up && p.above_up)) {
            return true;
        }
        i += 1;
    }
    false
}

/// Tells whether some parameter has inconsistent limits.
fn any_limits_inconsistent(checks: &Vec<ParamCheck>) -> (r: bool)
    ensures
        r == some_limits_inconsistent(checks@),
{
    let mut i: usize = 0;
    while i < checks.len()
        invariant
            i <= checks.len(),
            forall|j: int| 0 <= j < i ==> !limits_inconsistent(#[trigger] checks@[j]),
        decreases checks.len() - i,
    {
        let p = checks[i];
        if p.limited_low && p.limited_up && p.limits_crossed {
            return true;
        }
        i += 1;
    }
    false
}

/// Binds `n_par` parameters to `m` data points under optional constraints
/// and returns the positions of the free parameters, or the validation
/// failure that `binding_outcome` names.
pub fn validate(m: usize, n_par: usize, checks: Option<&Vec<ParamCheck>>) -> (r: Result<
    Vec<usize>,
    MPError,
>)
    ensures
        match r {
            Ok(free) => binding_outcome(m as nat, n_par as nat, checks_view(checks)) == Ok::<
                Seq<usize>,
                MPError,
            >(free@),
            Err(e) => binding_outcome(m as nat, n_par as nat, checks_view(checks)) == Err::<
                Seq<usize>,
                MPError,
            >(e),
        },
{
    if m == 0 {
        return Err(MPError::Empty);
    }
    match checks {
        None => {
            if n_par == 0 {
                Err(MPError::NoFree)
            } else if m < n_par {
                Err(MPError::DoF)
            } else {
                Ok(all_indices(n_par))
            }
        },
        Some(c) => {
            if c.len() == 0 {
                return Err(MPError::Empty);
            }
            if c.len() != n_par {
                return Err(MPError::Input);
            }
            let free = free_indices(c);
            if free.len() == 0 {
                Err(MPError::NoFree)
            } else if m < free.len() {
                Err(MPError::DoF)
            } else if any_free_starts_outside(c) {
                Err(MPError::InitBounds)
            } else if any_limits_inconsistent(c) {
                Err(MPError::Bounds)
            } else {
                Ok(free)
            }
        },
    }
}

} // verus!
