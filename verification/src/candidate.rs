//! Candidates and their comparison.
//!
//! A candidate is a position vector plus its cached fitness, both as
//! binary64 bit patterns. Fitness is lower-is-better; comparison happens
//! on the rank of `crate::bits`, under which every non-finite fitness sits
//! above all finite ones and so never wins.

use vstd::prelude::*;
use crate::bits::{fit_rank, is_finite_bits, is_finite, rank_le, rank_lt};

verus! {

/// A point of the search space together with its evaluated fitness.
#[derive(Debug)]
pub struct Solution {
    /// Bit patterns of the coordinates, one per dimension.
    pub position: Vec<u64>,
    /// Bit pattern of the objective's value at `position`.
    pub fitness: u64,
}

/// Greedy, equality-preferring selection: a trial takes the slot when its
/// fitness is finite and ranks no worse than the incumbent's. A non-finite
/// trial fitness (an objective contract violation) never replaces.
pub open spec fn replaces(trial_fit: u64, incumbent_fit: u64) -> bool {
    is_finite_bits(trial_fit) && fit_rank(trial_fit) <= fit_rank(incumbent_fit)
}

/// Whether the trial takes the slot, under the greedy rule.
pub fn accepts(trial_fit: u64, incumbent_fit: u64) -> (r: bool)
    ensures
        r == replaces(trial_fit, incumbent_fit),
{
    is_finite(trial_fit) && rank_le(trial_fit, incumbent_fit)
}

/// `b` points at a candidate of minimal fitness rank, and at the first
/// one: every earlier candidate ranks strictly worse, so a tie never moves
/// the best index to a later slot.
pub open spec fn is_first_min(pop: Seq<Solution>, b: int) -> bool {
    &&& 0 <= b < pop.len()
    &&& forall|j: int|
        0 <= j < pop.len() ==> fit_rank(pop[b].fitness) <= fit_rank(#[trigger] pop[j].fitness)
    &&& forall|j: int|
        0 <= j < b ==> fit_rank(pop[b].fitness) < fit_rank(#[trigger] pop[j].fitness)
}

/// The law behind monotone best tracking: when a generation advances by
/// greedy replacement — no slot's fitness rank worsens — the best
/// fitness of the new population ranks no worse than the best fitness of
/// the old one, whichever slots the two best indices point at.
pub proof fn lemma_best_monotone(prev: Seq<Solution>, next: Seq<Solution>, pb: int, nb: int)
    requires
        prev.len() == next.len(),
        forall|j: int|
            0 <= j < next.len() ==> fit_rank((#[trigger] next[j]).fitness) <= fit_rank(
                prev[j].fitness,
            ),
        is_first_min(prev, pb),
        is_first_min(next, nb),
    ensures
        fit_rank(next[nb].fitness) <= fit_rank(prev[pb].fitness),
{
    assert(fit_rank(next[nb].fitness) <= fit_rank(next[pb].fitness));
    assert(fit_rank(next[pb].fitness) <= fit_rank(prev[pb].fitness));
}

/// The index of the first candidate of minimal fitness rank.
pub fn best_of(pop: &Vec<Solution>) -> (b: usize)
    requires
        pop.len() > 0,
    ensures
        is_first_min(pop@, b as int),
{
    let mut b: usize = 0;
    let mut i: usize = 1;
    while i < pop.len()
        invariant
            0 < i <= pop.len(),
            b < i,
            forall|j: int|
                0 <= j < i ==> fit_rank(pop@[b as int].fitness) <= fit_rank(
                    #[trigger] pop@[j].fitness,
                ),
            forall|j: int|
                0 <= j < b ==> fit_rank(pop@[b as int].fitness) < fit_rank(
                    #[trigger] pop@[j].fitness,
                ),
        decreases pop.len() - i,
    {
        if rank_lt(pop[i].fitness, pop[b].fitness) {
            b = i;
        }
        i += 1;
    }
    b
}

} // verus!
