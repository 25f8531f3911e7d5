use vstd::prelude::*;
use crate::binding::{
    all_positions, binding_outcome, free_positions, lemma_free_positions, ParamCheck,
};
use crate::types::MPError;

verus! {

/// The positions are distinct and each below `n_par`.
pub open spec fn positions_valid(n_par: nat, ifree: Seq<usize>) -> bool {
    &&& forall|k: int| 0 <= k < ifree.len() ==> #[trigger] ifree[k] < n_par
    &&& forall|k1: int, k2: int| 0 <= k1 < ifree.len() && 0 <= k2 < ifree.len() && k1 != k2
        ==> ifree[k1] != ifree[k2]
}

/// Where parameter `p` sits in the reduced covariance matrix: the slot of
/// the free parameter at `p`, unless that one is pegged at a bound; nothing
/// for a fixed or pegged parameter.
pub open spec fn active_slot(ifree: Seq<usize>, pegged: Seq<bool>, p: usize) -> Option<usize> {
    if exists|k: int| 0 <= k < ifree.len() && ifree[k] == p {
        let k = choose|k: int| 0 <= k < ifree.len() && ifree[k] == p;
        if pegged[k] {
            None
        } else {
            Some(k as usize)
        }
    } else {
        None
    }
}

/// The free positions that a successful binding returns are distinct and
/// name parameters, so they can be placed in the covariance matrix.
pub proof fn lemma_bound_positions_valid(
    m: nat,
    n_par: nat,
    checks: Option<Seq<ParamCheck>>,
    free: Seq<usize>,
)
    requires
        n_par <= usize::MAX,
        binding_outcome(m, n_par, checks) == Ok::<Seq<usize>, MPError>(free),
    ensures
        positions_valid(n_par, free),
{
    match checks {
        Some(c) => {
            lemma_free_positions(c);
            assert forall|k1: int, k2: int|
                0 <= k1 < free.len() && 0 <= k2 < free.len() && k1 != k2 implies free[k1]
                != free[k2] by {
                if k1 < k2 {
                    assert(free[k1] < free[k2]);
                } else {
                    assert(free[k2] < free[k1]);
                }
            }
        },
        None => {
            assert(free == all_positions(n_par));
        },
    }
}

/// For each of `n_par` parameters, its slot in the reduced covariance
/// matrix of the free parameters listed in `ifree`, or `None` for a
/// parameter that is fixed or pegged and so has zero covariance.
pub fn active_slots(n_par: usize, ifree: &Vec<usize>, pegged: &Vec<bool>) -> (r: Vec<
    Option<usize>,
>)
    requires
        ifree.len() == pegged.len(),
        positions_valid(n_par as nat, ifree@),
    ensures
        r.len() == n_par,
        forall|p: usize| p < n_par ==> r@[p as int] == active_slot(ifree@, pegged@, p),
{
    let mut r: Vec<Option<usize>> = Vec::new();
    let mut i: usize = 0;
    while i < n_par
        invariant
            i <= n_par,
            r.len() == i,
            forall|p: int| 0 <= p < i ==> r@[p] == None::<usize>,
        decreases n_par - i,
    {
        r.push(None);
        i += 1;
    }
    let mut k: usize = 0;
    while k < ifree.len()
        invariant
            k <= ifree.len(),
            ifree.len() == pegged.len(),
            positions_valid(n_par as nat, ifree@),
            r.len() == n_par,
            forall|j: int|
                0 <= j < k ==> r@[ifree@[j] as int] == (if pegged@[j] {
                    None
                } else {
                    Some(j as usize)
                }),
            forall|p: usize|
                p < n_par && !(exists|j: int| 0 <= j < k && ifree@[j] == p) ==> r@[p as int]
                    == None::<usize>,
        decreases ifree.len() - k,
    {
        let slot = if pegged[k] {
            None
        } else {
            Some(k)
        };
        r.set(ifree[k], slot);
        proof {
            assert forall|p: usize|
                p < n_par && !(exists|j: int| 0 <= j < k + 1 && ifree@[j] == p) implies r@[p as int]
                == None::<usize> by {
                assert(ifree@[k as int] != p);
            }
        }
        k += 1;
    }
    proof {
        assert forall|p: usize| p < n_par implies r@[p as int] == active_slot(ifree@, pegged@, p) by {
            if exists|j: int| 0 <= j < ifree.len() && ifree@[j] == p {
                let j = choose|j: int| 0 <= j < ifree.len() && ifree@[j] == p;
                assert(r@[ifree@[j] as int] == (if pegged@[j] {
                    None
                } else {
                    Some(j as usize)
                }));
            }
        }
    }
    r
}

/// A fixed parameter has no slot in the covariance matrix, so its variance
/// and covariances are exactly zero.
pub proof fn lemma_fixed_has_no_slot(c: Seq<ParamCheck>, pegged: Seq<bool>, p: usize)
    requires
        c.len() <= usize::MAX,
        p < c.len(),
        c[p as int].fixed,
    ensures
        active_slot(free_positions(c), pegged, p) == None::<usize>,
{
    lemma_free_positions(c);
    let f = free_positions(c);
    if exists|k: int| 0 <= k < f.len() && f[k] == p {
        let k = choose|k: int| 0 <= k < f.len() && f[k] == p;
        assert(f.contains(p));
    }
}

/// A pegged free parameter has no slot in the covariance matrix, so its
/// variance and covariances are exactly zero.
pub proof fn lemma_pegged_has_no_slot(ifree: Seq<usize>, pegged: Seq<bool>, k: int)
    requires
        forall|k1: int, k2: int| 0 <= k1 < ifree.len() && 0 <= k2 < ifree.len() && k1 != k2
            ==> ifree[k1] != ifree[k2],
        0 <= k < ifree.len(),
        pegged[k],
    ensures
        active_slot(ifree, pegged, ifree[k]) == None::<usize>,
{
    let j = choose|j: int| 0 <= j < ifree.len() && ifree[j] == ifree[k];
    assert(j == k);
}

/// Number of pegged free parameters.
pub open spec fn pegged_count(pegged: Seq<bool>) -> nat
    decreases pegged.len(),
{
    if pegged.len() == 0 {
        0
    } else {
        pegged_count(pegged.drop_last()) + if pegged.last() {
            1nat
        } else {
            0nat
        }
    }
}

/// Counts the pegged free parameters.
pub fn count_pegged(pegged: &Vec<bool>) -> (r: usize)
    ensures
        r == pegged_count(pegged@),
{
    let mut r: usize = 0;
    let mut i: usize = 0;
    while i < pegged.len()
        invariant
            i <= pegged.len(),
            r == pegged_count(pegged@.take(i as int)),
            r <= i,
        decreases pegged.len() - i,
    {
        assert(pegged@.take(i + 1).drop_last() =~= pegged@.take(i as int));
        if pegged[i] {
            r += 1;
        }
        i += 1;
    }
    assert(pegged@.take(pegged.len() as int) =~= pegged@);
    r
}

} // verus!
