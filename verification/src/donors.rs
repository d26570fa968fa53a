//! Donor selection: distinct population indices, drawn at random, never
//! equal to the target index.
//!
//! The draw works on a pool that starts as every valid index and shrinks
//! by one per pick, so it needs exactly `count` draws, terminates for
//! every random outcome, and picks uniformly over the valid index sets.

use vstd::prelude::*;
use crate::rng::rand_below;

verus! {

/// Every element of `sel` is a population index distinct from `avoid`.
pub open spec fn donors_valid(sel: Seq<usize>, population_size: usize, avoid: usize) -> bool {
    forall|i: int| 0 <= i < sel.len() ==> sel[i] < population_size && sel[i] != avoid
}

/// No index appears twice in `sel`.
pub open spec fn donors_distinct(sel: Seq<usize>) -> bool {
    forall|i: int, j: int| 0 <= i < j < sel.len() ==> sel[i] != sel[j]
}

/// Draw `count` distinct indices in `[0, population_size)`, none equal to
/// `avoid`, without replacement. Needs `population_size > count` so that a
/// valid selection exists even when `avoid` lies in the range.
pub fn select_donors(count: usize, population_size: usize, avoid: usize) -> (sel: Vec<usize>)
    requires
        count < population_size,
    ensures
        sel.len() == count,
        donors_valid(sel@, population_size, avoid),
        donors_distinct(sel@),
{
    let mut pool: Vec<usize> = Vec::new();
    let mut k: usize = 0;
    while k < population_size
        invariant
            k <= population_size,
            pool.len() == if k > avoid { (k - 1) as int } else { k as int },
            forall|i: int| 0 <= i < pool.len() ==> pool[i] < k && pool[i] != avoid,
            forall|i: int, j: int| 0 <= i < j < pool.len() ==> pool[i] < pool[j],
        decreases population_size - k,
    {
        if k != avoid {
            pool.push(k);
        }
        k += 1;
    }
    let mut sel: Vec<usize> = Vec::new();
    let mut t: usize = 0;
    while t < count
        invariant
            t <= count,
            count < population_size,
            sel.len() == t,
            pool.len() >= population_size - 1 - t,
            donors_valid(sel@, population_size, avoid),
            donors_distinct(sel@),
            forall|i: int| 0 <= i < pool.len() ==> pool[i] < population_size && pool[i] != avoid,
            forall|i: int, j: int| 0 <= i < j < pool.len() ==> pool[i] != pool[j],
            forall|i: int, j: int|
                0 <= i < sel.len() && 0 <= j < pool.len() ==> sel[i] != pool[j],
        decreases count - t,
    {
        let j = rand_below(pool.len());
        let x = pool.swap_remove(j);
        sel.push(x);
        t += 1;
    }
    sel
}

} // verus!
