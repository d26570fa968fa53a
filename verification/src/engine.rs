//! The optimizer: configuration, population, the generation stepper and
//! the caller-driven iteration protocol.
//!
//! The engine holds an ordered, fixed-size population of candidates and
//! advances it one generation at a time: for every slot it selects donors
//! from the population as it stood at the start of the generation, builds
//! a trial through the active mutation strategy, evaluates it through the
//! caller's objective, and keeps the trial only when its fitness ranks no
//! worse than the incumbent's. The best index is then recomputed as the
//! first minimum, so the tracked best fitness never worsens.
//!
//! The objective is the one boundary the engine depends on: an injected
//! callable from a position to a fitness (binary64 bits, lower is
//! better), total on all positions and safe to call from several lanes
//! at once. Returning non-finite bits breaks the objective's contract;
//! the engine contains the violation: such a fitness never takes a slot
//! and never becomes the tracked best.

use vstd::prelude::*;
use crate::bits::{fit_rank, is_finite_bits, val_key};
use crate::candidate::{Solution, accepts, replaces, is_first_min, best_of, lemma_best_monotone};
use crate::donors::select_donors;
use crate::fp::{add_bits, sub_bits, mul_bits, from_u64};
use crate::rng::{rand_below, rand_word};
use crate::strategy::{crossover_classic, crossover_directional, classic_trial_from,
    is_classic_trial, directional_trial_from, is_directional_trial};

verus! {

/// Bits of the default crossover probability, 0.9.
pub const CR_DEFAULT: u64 = 0x3fec_cccc_cccc_cccd;

/// Bits of the default differential weight, 0.8.
pub const WEIGHT_DEFAULT: u64 = 0x3fe9_9999_9999_999a;

/// Bits of 1.0, the default initialization bound.
pub const ONE_BITS: u64 = 0x3ff0_0000_0000_0000;

/// Bits of 0.5.
pub const HALF_BITS: u64 = 0x3fe0_0000_0000_0000;

/// Bits of 2^-64, the scale that maps a random 64-bit word into `[0, 1]`.
pub const TWO_NEG64_BITS: u64 = 0x3bf0_0000_0000_0000;

/// How initial positions are sampled, coordinate by coordinate, from a
/// uniform draw `u` in `[0, 1]` and the configured bound `B`.
#[derive(Clone, Copy, PartialEq, Eq, Structural, Debug)]
pub enum InitPolicy {
    /// `1 + B * (u - 1/2)`: centered on one with spread `B`.
    Centered,
    /// `B * u`: uniform in `[0, B]`.
    FromZero,
}

/// The mutation strategy a generation advance uses.
#[derive(Clone, Copy, PartialEq, Eq, Structural, Debug)]
pub enum Strategy {
    /// rand/1/bin: three donors, trial `a + F * (b - c)` per open gate.
    Classic,
    /// Gradient-informed: two donors steer a weighted step from the target.
    Directional,
}

/// How many donors a strategy draws; the population must be strictly
/// larger, or no valid donor selection exists.
pub open spec fn donor_requirement(s: Strategy) -> int {
    match s {
        Strategy::Classic => 3,
        Strategy::Directional => 2,
    }
}

/// Why the engine refused to act.
#[derive(Clone, Copy, PartialEq, Eq, Structural, Debug)]
pub enum StepError {
    /// A generation advance ran before initialization.
    NotReady,
    /// The population is not larger than the strategy's donor requirement.
    PopulationTooSmall,
    /// A committed generation does not match the population's shape.
    GenerationMismatch,
}

/// The objective accepts every position: the engine may evaluate any
/// trial it constructs.
pub open spec fn obj_total<F: Fn(Vec<u64>) -> u64>(obj: F) -> bool {
    forall|v: Vec<u64>| #[trigger] call_requires(obj, (v,))
}

/// The fitness bits `fit` are an output the objective `obj` can produce
/// on a position whose coordinates are `pos`.
pub open spec fn fit_from<F: Fn(Vec<u64>) -> u64>(obj: F, pos: Seq<u64>, fit: u64) -> bool {
    exists|v: Vec<u64>| v@ == pos && #[trigger] call_ensures(obj, (v,), fit)
}

/// Every candidate's cached fitness came from the objective applied to
/// that candidate's own position.
pub open spec fn evaluated<F: Fn(Vec<u64>) -> u64>(pop: Seq<Solution>, obj: F) -> bool {
    forall|i: int|
        0 <= i < pop.len() ==> fit_from(obj, (#[trigger] pop[i]).position@, pop[i].fitness)
}

/// The slot result `r` is the greedy, equality-preferring choice
/// between the incumbent at `i` and a trial with coordinates `t` whose
/// fitness `f` came from the objective: the trial takes the slot exactly
/// when the greedy rule says so, and the incumbent stays otherwise.
pub open spec fn greedy_outcome<F: Fn(Vec<u64>) -> u64>(
    obj: F,
    pop: Seq<Solution>,
    i: int,
    t: Seq<u64>,
    f: u64,
    r: Solution,
) -> bool {
    &&& fit_from(obj, t, f)
    &&& replaces(f, pop[i].fitness) ==> r.position@ == t && r.fitness == f
    &&& !replaces(f, pop[i].fitness) ==> r.position@ == pop[i].position@ && r.fitness
        == pop[i].fitness
}

/// Slot `i` really was advanced: some classic trial — validly drawn
/// donors, forced dimension and gates — was built, evaluated through the
/// objective, and the greedy rule decided between it and the incumbent.
pub open spec fn classic_slot_outcome<F: Fn(Vec<u64>) -> u64>(
    obj: F,
    pop: Seq<Solution>,
    i: int,
    w: u64,
    cr: u64,
    r: Solution,
) -> bool {
    exists|t: Seq<u64>, f: u64|
        is_classic_trial(pop, i, w, cr, t) && #[trigger] greedy_outcome(obj, pop, i, t, f, r)
}

/// Slot `i` really was advanced by the directional strategy, with the
/// same greedy decision against a validly drawn directional trial.
pub open spec fn directional_slot_outcome<F: Fn(Vec<u64>) -> u64>(
    obj: F,
    pop: Seq<Solution>,
    i: int,
    w: u64,
    cr: u64,
    r: Solution,
) -> bool {
    exists|t: Seq<u64>, f: u64|
        is_directional_trial(pop, i, w, cr, t) && #[trigger] greedy_outcome(obj, pop, i, t, f, r)
}

/// An exact copy of a coordinate vector.
fn copy_coords(v: &Vec<u64>) -> (r: Vec<u64>)
    ensures
        r@ == v@,
{
    let mut r: Vec<u64> = Vec::new();
    let mut k: usize = 0;
    while k < v.len()
        invariant
            k <= v@.len(),
            r@.len() == k,
            forall|j: int| 0 <= j < k ==> r@[j] == v@[j],
        decreases v@.len() - k,
    {
        r.push(v[k]);
        k += 1;
    }
    proof {
        assert(r@ =~= v@);
    }
    r
}

/// An exact copy of a candidate.
fn copy_solution(s: &Solution) -> (r: Solution)
    ensures
        r.position@ == s.position@,
        r.fitness == s.fitness,
{
    Solution { position: copy_coords(&s.position), fitness: s.fitness }
}

/// One uniform draw in `[0, 1]`, as binary64 bits: a random 64-bit word,
/// converted to the nearest double and scaled by 2^-64.
fn unit_draw() -> u64 {
    mul_bits(from_u64(rand_word()), TWO_NEG64_BITS)
}

/// One fresh uniform draw per dimension, for the crossover gates.
fn draw_gates(d: usize) -> (g: Vec<u64>)
    ensures
        g@.len() == d,
{
    let mut g: Vec<u64> = Vec::new();
    let mut k: usize = 0;
    while k < d
        invariant
            k <= d,
            g@.len() == k,
        decreases d - k,
    {
        g.push(unit_draw());
        k += 1;
    }
    g
}

/// The coordinate the sampling policy produces from the uniform draw
/// `u` and the bound: `1 + bound * (u - 1/2)` for centered sampling,
/// `bound * u` for sampling from zero, on binary64 values.
pub open spec fn sampled_value(policy: InitPolicy, bound: u64, u: u64) -> u64 {
    match policy {
        InitPolicy::Centered => crate::fp::add_bits_spec(
            ONE_BITS,
            crate::fp::mul_bits_spec(bound, crate::fp::sub_bits_spec(u, HALF_BITS)),
        ),
        InitPolicy::FromZero => crate::fp::mul_bits_spec(bound, u),
    }
}

/// The coordinate `x` is the policy's expression over some uniform draw.
pub open spec fn policy_coord(policy: InitPolicy, bound: u64, x: u64) -> bool {
    exists|u: u64| x == #[trigger] sampled_value(policy, bound, u)
}

/// Every coordinate of every candidate is the configured policy's
/// expression over some uniform draw.
pub open spec fn policy_sampled(pop: Seq<Solution>, policy: InitPolicy, bound: u64) -> bool {
    forall|i: int, k: int|
        0 <= i < pop.len() && 0 <= k < pop[i].position@.len() ==> policy_coord(
            policy,
            bound,
            #[trigger] pop[i].position@[k],
        )
}

/// One freshly sampled position of dimension `d`: each coordinate is the
/// policy's expression over its own fresh uniform draw.
fn sample_position(d: usize, bound: u64, policy: InitPolicy) -> (p: Vec<u64>)
    ensures
        p@.len() == d,
        forall|k: int| 0 <= k < d ==> policy_coord(policy, bound, #[trigger] p@[k]),
{
    let mut p: Vec<u64> = Vec::new();
    let mut k: usize = 0;
    while k < d
        invariant
            k <= d,
            p@.len() == k,
            forall|j: int| 0 <= j < k ==> policy_coord(policy, bound, #[trigger] p@[j]),
        decreases d - k,
    {
        let u = unit_draw();
        let x = match policy {
            InitPolicy::Centered => add_bits(ONE_BITS, mul_bits(bound, sub_bits(u, HALF_BITS))),
            InitPolicy::FromZero => mul_bits(bound, u),
        };
        proof {
            assert(x == sampled_value(policy, bound, u));
            assert(policy_coord(policy, bound, x));
        }
        p.push(x);
        k += 1;
    }
    p
}

/// The differential-evolution engine: hyperparameters, the injected
/// objective, and the population with its tracked best index.
pub struct DE<F: Fn(Vec<u64>) -> u64> {
    cr: u64,
    f: u64,
    np: usize,
    d: usize,
    max: u64,
    policy: InitPolicy,
    strategy: Strategy,
    pop: Vec<Solution>,
    fit: F,
    ready: bool,
    best: usize,
}

impl<F: Fn(Vec<u64>) -> u64> DE<F> {
    /// The population, in slot order.
    pub closed spec fn spec_pop(self) -> Seq<Solution> {
        self.pop@
    }

    /// The configured population size N.
    pub closed spec fn spec_np(self) -> usize {
        self.np
    }

    /// The dimension D of the search space.
    pub closed spec fn spec_dim(self) -> usize {
        self.d
    }

    /// Bits of the crossover probability CR.
    pub closed spec fn spec_crossover(self) -> u64 {
        self.cr
    }

    /// Bits of the differential weight F.
    pub closed spec fn spec_weight(self) -> u64 {
        self.f
    }

    /// Bits of the initialization bound B.
    pub closed spec fn spec_bound(self) -> u64 {
        self.max
    }

    /// The initialization sampling policy.
    pub closed spec fn spec_policy(self) -> InitPolicy {
        self.policy
    }

    /// The active mutation strategy.
    pub closed spec fn spec_strategy(self) -> Strategy {
        self.strategy
    }

    /// Whether the population has been initialized.
    pub closed spec fn spec_ready(self) -> bool {
        self.ready
    }

    /// The tracked index of the best candidate.
    pub closed spec fn spec_best(self) -> usize {
        self.best
    }

    /// The caller's objective.
    pub closed spec fn spec_obj(self) -> F {
        self.fit
    }

    /// The tracked best candidate's fitness bits.
    pub open spec fn spec_best_fit(self) -> u64 {
        self.spec_pop()[self.spec_best() as int].fitness
    }

    /// The engine's invariant: the dimension is positive; before
    /// initialization the population is empty; once ready it has exactly
    /// N candidates, all of dimension D, the population is larger than
    /// the configured strategy's donor requirement (initialization
    /// rejects anything smaller), every cached fitness came from the
    /// objective on its own position, and the tracked best index is the
    /// first minimum of the fitness ranks.
    pub open spec fn wf(self) -> bool {
        &&& self.spec_dim() >= 1
        &&& !self.spec_ready() ==> self.spec_pop().len() == 0
        &&& self.spec_ready() ==> self.spec_pop().len() == self.spec_np()
        &&& self.spec_ready() ==> self.spec_np() > donor_requirement(self.spec_strategy())
        &&& self.spec_ready() ==> evaluated(self.spec_pop(), self.spec_obj())
        &&& self.spec_ready() ==> forall|i: int|
            0 <= i < self.spec_pop().len() ==> (#[trigger] self.spec_pop()[i]).position@.len()
                == self.spec_dim()
        &&& self.spec_ready() ==> is_first_min(self.spec_pop(), self.spec_best() as int)
    }

    /// The two engines share every configuration field and the objective.
    pub open spec fn same_config(self, other: Self) -> bool {
        &&& self.spec_crossover() == other.spec_crossover()
        &&& self.spec_weight() == other.spec_weight()
        &&& self.spec_np() == other.spec_np()
        &&& self.spec_dim() == other.spec_dim()
        &&& self.spec_bound() == other.spec_bound()
        &&& self.spec_policy() == other.spec_policy()
        &&& self.spec_strategy() == other.spec_strategy()
        &&& self.spec_obj() == other.spec_obj()
    }

    /// A fresh, not yet initialized engine: dimension `dimensions`,
    /// objective `function` (which must accept every position), and the
    /// default hyperparameters (N = 10 D, CR = 0.9, F = 0.8, B = 1,
    /// centered sampling, classic strategy).
    pub fn new(dimensions: usize, function: F) -> (r: Self)
        requires
            1 <= dimensions,
            dimensions <= usize::MAX / 10,
            obj_total(function),
        ensures
            r.wf(),
            !r.spec_ready(),
            r.spec_dim() == dimensions,
            r.spec_np() == 10 * dimensions,
            r.spec_crossover() == CR_DEFAULT,
            r.spec_weight() == WEIGHT_DEFAULT,
            r.spec_bound() == ONE_BITS,
            r.spec_policy() == InitPolicy::Centered,
            r.spec_strategy() == Strategy::Classic,
            r.spec_best() == 0,
            r.spec_obj() == function,
    {
        DE {
            cr: CR_DEFAULT,
            f: WEIGHT_DEFAULT,
            np: 10 * dimensions,
            d: dimensions,
            max: ONE_BITS,
            policy: InitPolicy::Centered,
            strategy: Strategy::Classic,
            pop: Vec::new(),
            fit: function,
            ready: false,
            best: 0,
        }
    }

    /// Set the crossover probability CR (bits of a finite value in
    /// `[0, 1]`). Configuration is immutable once initialized.
    pub fn crossover_probability(self, p: u64) -> (r: Self)
        requires
            self.wf(),
            !self.spec_ready(),
            is_finite_bits(p),
            0 <= val_key(p) <= val_key(ONE_BITS),
        ensures
            r.wf(),
            !r.spec_ready(),
            r.spec_crossover() == p,
            r.spec_weight() == self.spec_weight(),
            r.spec_np() == self.spec_np(),
            r.spec_dim() == self.spec_dim(),
            r.spec_bound() == self.spec_bound(),
            r.spec_policy() == self.spec_policy(),
            r.spec_strategy() == self.spec_strategy(),
            r.spec_best() == self.spec_best(),
            r.spec_obj() == self.spec_obj(),
    {
        let mut s = self;
        s.cr = p;
        s
    }

    /// Set the differential weight F (bits of a finite value).
    pub fn differential_weight(self, w: u64) -> (r: Self)
        requires
            self.wf(),
            !self.spec_ready(),
            is_finite_bits(w),
        ensures
            r.wf(),
            !r.spec_ready(),
            r.spec_weight() == w,
            r.spec_crossover() == self.spec_crossover(),
            r.spec_np() == self.spec_np(),
            r.spec_dim() == self.spec_dim(),
            r.spec_bound() == self.spec_bound(),
            r.spec_policy() == self.spec_policy(),
            r.spec_strategy() == self.spec_strategy(),
            r.spec_best() == self.spec_best(),
            r.spec_obj() == self.spec_obj(),
    {
        let mut s = self;
        s.f = w;
        s
    }

    /// Set the population size N (positive).
    pub fn population_size(self, n: usize) -> (r: Self)
        requires
            self.wf(),
            !self.spec_ready(),
            n >= 1,
        ensures
            r.wf(),
            !r.spec_ready(),
            r.spec_np() == n,
            r.spec_crossover() == self.spec_crossover(),
            r.spec_weight() == self.spec_weight(),
            r.spec_dim() == self.spec_dim(),
            r.spec_bound() == self.spec_bound(),
            r.spec_policy() == self.spec_policy(),
            r.spec_strategy() == self.spec_strategy(),
            r.spec_best() == self.spec_best(),
            r.spec_obj() == self.spec_obj(),
    {
        let mut s = self;
        s.np = n;
        s
    }

    /// Set the initialization bound B (bits of a finite positive value).
    pub fn bound(self, b: u64) -> (r: Self)
        requires
            self.wf(),
            !self.spec_ready(),
            is_finite_bits(b),
            val_key(b) > 0,
        ensures
            r.wf(),
            !r.spec_ready(),
            r.spec_bound() == b,
            r.spec_crossover() == self.spec_crossover(),
            r.spec_weight() == self.spec_weight(),
            r.spec_np() == self.spec_np(),
            r.spec_dim() == self.spec_dim(),
            r.spec_policy() == self.spec_policy(),
            r.spec_strategy() == self.spec_strategy(),
            r.spec_best() == self.spec_best(),
            r.spec_obj() == self.spec_obj(),
    {
        let mut s = self;
        s.max = b;
        s
    }

    /// Choose how initial positions are sampled.
    pub fn init_policy(self, p: InitPolicy) -> (r: Self)
        requires
            self.wf(),
            !self.spec_ready(),
        ensures
            r.wf(),
            !r.spec_ready(),
            r.spec_policy() == p,
            r.spec_crossover() == self.spec_crossover(),
            r.spec_weight() == self.spec_weight(),
            r.spec_np() == self.spec_np(),
            r.spec_dim() == self.spec_dim(),
            r.spec_bound() == self.spec_bound(),
            r.spec_strategy() == self.spec_strategy(),
            r.spec_best() == self.spec_best(),
            r.spec_obj() == self.spec_obj(),
    {
        let mut s = self;
        s.policy = p;
        s
    }

    /// Choose the mutation strategy a generation advance uses.
    pub fn mutation_strategy(self, st: Strategy) -> (r: Self)
        requires
            self.wf(),
            !self.spec_ready(),
        ensures
            r.wf(),
            !r.spec_ready(),
            r.spec_strategy() == st,
            r.spec_crossover() == self.spec_crossover(),
            r.spec_weight() == self.spec_weight(),
            r.spec_np() == self.spec_np(),
            r.spec_dim() == self.spec_dim(),
            r.spec_bound() == self.spec_bound(),
            r.spec_policy() == self.spec_policy(),
            r.spec_best() == self.spec_best(),
            r.spec_obj() == self.spec_obj(),
    {
        let mut s = self;
        s.strategy = st;
        s
    }

    /// Create the population: N positions sampled under the configured
    /// policy and bound, each evaluated through the objective exactly
    /// once, and the best index computed. Happens exactly once per run.
    /// A population size not larger than the configured strategy's donor
    /// requirement is an invalid configuration and is rejected here,
    /// before any generation can run, with a structured error.
    pub fn init(self) -> (res: Result<Self, StepError>)
        requires
            self.wf(),
            obj_total(self.spec_obj()),
            !self.spec_ready(),
        ensures
            res is Ok <==> self.spec_np() > donor_requirement(self.spec_strategy()),
            res matches Err(e) ==> e == StepError::PopulationTooSmall,
            res matches Ok(r) ==> {
                &&& r.wf()
                &&& r.spec_ready()
                &&& r.same_config(self)
                &&& r.spec_pop().len() == self.spec_np()
                &&& forall|i: int|
                    0 <= i < r.spec_pop().len() ==> (#[trigger] r.spec_pop()[i]).position@.len()
                        == self.spec_dim()
                &&& evaluated(r.spec_pop(), self.spec_obj())
                &&& policy_sampled(r.spec_pop(), self.spec_policy(), self.spec_bound())
                &&& is_first_min(r.spec_pop(), r.spec_best() as int)
            },
    {
        let need: usize = match self.strategy {
            Strategy::Classic => 3,
            Strategy::Directional => 2,
        };
        if self.np <= need {
            return Err(StepError::PopulationTooSmall);
        }
        let ghost orig = self;
        proof {
            assert forall|v: Vec<u64>| #[trigger] call_requires(orig.spec_obj(), (v,)) by {
                assert(call_requires(self.spec_obj(), (v,)));
            }
        }
        let mut s = self;
        let np = s.np;
        let mut count: usize = 0;
        while count < np
            invariant
                count <= np,
                s.pop@.len() == count,
                s.cr == orig.cr,
                s.f == orig.f,
                s.np == orig.np,
                s.d == orig.d,
                s.max == orig.max,
                s.policy == orig.policy,
                s.strategy == orig.strategy,
                s.fit == orig.fit,
                s.ready == orig.ready,
                s.best == orig.best,
                np == orig.np,
                obj_total(orig.spec_obj()),
                forall|i: int|
                    0 <= i < s.pop@.len() ==> (#[trigger] s.pop@[i]).position@.len() == s.d,
                evaluated(s.pop@, s.fit),
                policy_sampled(s.pop@, orig.policy, orig.max),
            decreases np - count,
        {
            let pos = sample_position(s.d, s.max, s.policy);
            let ghost posv = pos@;
            let arg = copy_coords(&pos);
            proof {
                assert(call_requires(orig.spec_obj(), (arg,)));
            }
            let fitness = (s.fit)(arg);
            let ghost prevpop = s.pop@;
            s.pop.push(Solution { position: pos, fitness });
            proof {
                assert forall|ii: int, kk: int|
                    0 <= ii < s.pop@.len() && 0 <= kk < s.pop@[ii].position@.len()
                    implies policy_coord(
                    orig.policy,
                    orig.max,
                    #[trigger] s.pop@[ii].position@[kk],
                ) by {
                    if ii < prevpop.len() {
                        assert(s.pop@[ii] == prevpop[ii]);
                        assert(policy_coord(orig.policy, orig.max, prevpop[ii].position@[kk]));
                    } else {
                        assert(s.pop@[ii].position@ == posv);
                        assert(policy_coord(orig.policy, orig.max, posv[kk]));
                    }
                }
            }
            count += 1;
        }
        let b = best_of(&s.pop);
        s.best = b;
        s.ready = true;
        Ok(s)
    }

    /// Whether the population has been initialized.
    pub fn is_ready(&self) -> (r: bool)
        ensures
            r == self.spec_ready(),
    {
        self.ready
    }

    /// A copy of the population, in slot order.
    pub fn population(&self) -> (r: Vec<Solution>)
        ensures
            r@.len() == self.spec_pop().len(),
            forall|i: int|
                0 <= i < r@.len() ==> (#[trigger] r@[i]).position@ == self.spec_pop()[i].position@
                    && r@[i].fitness == self.spec_pop()[i].fitness,
    {
        let mut r: Vec<Solution> = Vec::new();
        let mut k: usize = 0;
        while k < self.pop.len()
            invariant
                k <= self.pop@.len(),
                r@.len() == k,
                forall|i: int|
                    0 <= i < k ==> (#[trigger] r@[i]).position@ == self.pop@[i].position@
                        && r@[i].fitness == self.pop@[i].fitness,
            decreases self.pop@.len() - k,
        {
            r.push(copy_solution(&self.pop[k]));
            k += 1;
        }
        r
    }

    /// A copy of the current best candidate, or nothing before
    /// initialization.
    pub fn best(&self) -> (r: Option<Solution>)
        requires
            self.wf(),
        ensures
            r is Some <==> self.spec_ready(),
            r matches Some(s) ==> s.position@ == self.spec_pop()[self.spec_best() as int].position@
                && s.fitness == self.spec_best_fit(),
    {
        if self.ready {
            Some(copy_solution(&self.pop[self.best]))
        } else {
            None
        }
    }

    /// Advance one slot by the classic strategy, against the population
    /// as it stands: draw three donors avoiding `i`, a forced dimension
    /// and the gates, build the trial, evaluate it, and keep whichever of
    /// trial and incumbent the greedy rule picks. The outcome clause
    /// says the work really happened: a validly drawn trial was
    /// evaluated and the greedy rule (equality preferring the trial)
    /// decided the slot.
    pub fn classic_slot(&self, i: usize) -> (r: Solution)
        requires
            self.wf(),
            obj_total(self.spec_obj()),
            self.spec_ready(),
            self.spec_np() > 3,
            i < self.spec_pop().len(),
        ensures
            r.position@.len() == self.spec_dim(),
            fit_rank(r.fitness) <= fit_rank(self.spec_pop()[i as int].fitness),
            fit_from(self.spec_obj(), r.position@, r.fitness) || (r.position@
                == self.spec_pop()[i as int].position@ && r.fitness
                == self.spec_pop()[i as int].fitness),
            classic_slot_outcome(
                self.spec_obj(),
                self.spec_pop(),
                i as int,
                self.spec_weight(),
                self.spec_crossover(),
                r,
            ),
    {
        let sel = select_donors(3, self.pop.len(), i);
        let forced = rand_below(self.d);
        let gates = draw_gates(self.d);
        let ia = sel[0];
        let ib = sel[1];
        let ic = sel[2];
        let trial_pos = crossover_classic(
            &self.pop[i].position,
            &self.pop[ia].position,
            &self.pop[ib].position,
            &self.pop[ic].position,
            self.f,
            self.cr,
            forced,
            &gates,
        );
        let ghost tseq = trial_pos@;
        let arg = copy_coords(&trial_pos);
        proof {
            assert(call_requires(self.spec_obj(), (arg,)));
        }
        let trial_fit = (self.fit)(arg);
        let r = if accepts(trial_fit, self.pop[i].fitness) {
            Solution { position: trial_pos, fitness: trial_fit }
        } else {
            copy_solution(&self.pop[i])
        };
        proof {
            assert(classic_trial_from(
                self.spec_pop(),
                i as int,
                self.f,
                self.cr,
                sel@[0] as int,
                sel@[1] as int,
                sel@[2] as int,
                forced as int,
                gates@,
                tseq,
            ));
            assert(greedy_outcome(self.spec_obj(), self.spec_pop(), i as int, tseq, trial_fit, r));
        }
        r
    }

    /// Advance one slot by the directional strategy: two donors, weighted
    /// by their fitness values, steer the step; a zero fitness sum gives
    /// a zero step. The same greedy rule decides, and the outcome clause
    /// says it really did.
    pub fn directional_slot(&self, i: usize) -> (r: Solution)
        requires
            self.wf(),
            obj_total(self.spec_obj()),
            self.spec_ready(),
            self.spec_np() > 2,
            i < self.spec_pop().len(),
        ensures
            r.position@.len() == self.spec_dim(),
            fit_rank(r.fitness) <= fit_rank(self.spec_pop()[i as int].fitness),
            fit_from(self.spec_obj(), r.position@, r.fitness) || (r.position@
                == self.spec_pop()[i as int].position@ && r.fitness
                == self.spec_pop()[i as int].fitness),
            directional_slot_outcome(
                self.spec_obj(),
                self.spec_pop(),
                i as int,
                self.spec_weight(),
                self.spec_crossover(),
                r,
            ),
    {
        let sel = select_donors(2, self.pop.len(), i);
        let forced = rand_below(self.d);
        let gates = draw_gates(self.d);
        let ia = sel[0];
        let ib = sel[1];
        let trial_pos = crossover_directional(
            &self.pop[i].position,
            &self.pop[ia].position,
            &self.pop[ib].position,
            self.pop[i].fitness,
            self.pop[ia].fitness,
            self.pop[ib].fitness,
            self.f,
            self.cr,
            forced,
            &gates,
        );
        let ghost tseq = trial_pos@;
        let arg = copy_coords(&trial_pos);
        proof {
            assert(call_requires(self.spec_obj(), (arg,)));
        }
        let trial_fit = (self.fit)(arg);
        let r = if accepts(trial_fit, self.pop[i].fitness) {
            Solution { position: trial_pos, fitness: trial_fit }
        } else {
            copy_solution(&self.pop[i])
        };
        proof {
            assert(directional_trial_from(
                self.spec_pop(),
                i as int,
                self.f,
                self.cr,
                sel@[0] as int,
                sel@[1] as int,
                forced as int,
                gates@,
                tseq,
            ));
            assert(greedy_outcome(self.spec_obj(), self.spec_pop(), i as int, tseq, trial_fit, r));
        }
        r
    }

    /// Build the next generation by the classic strategy, slot by slot,
    /// every slot reading the population as of the start of the
    /// generation.
    fn build_classic(&self) -> (new_pop: Vec<Solution>)
        requires
            self.wf(),
            obj_total(self.spec_obj()),
            self.spec_ready(),
            self.spec_np() > 3,
        ensures
            new_pop@.len() == self.spec_pop().len(),
            forall|j: int|
                0 <= j < new_pop@.len() ==> (#[trigger] new_pop@[j]).position@.len()
                    == self.spec_dim(),
            forall|j: int|
                0 <= j < new_pop@.len() ==> fit_rank((#[trigger] new_pop@[j]).fitness) <= fit_rank(
                    self.spec_pop()[j].fitness,
                ),
            forall|j: int|
                0 <= j < new_pop@.len() ==> (fit_from(
                    self.spec_obj(),
                    (#[trigger] new_pop@[j]).position@,
                    new_pop@[j].fitness,
                ) || (new_pop@[j].position@ == self.spec_pop()[j].position@ && new_pop@[j].fitness
                    == self.spec_pop()[j].fitness)),
            forall|j: int|
                0 <= j < new_pop@.len() ==> #[trigger] classic_slot_outcome(
                    self.spec_obj(),
                    self.spec_pop(),
                    j,
                    self.spec_weight(),
                    self.spec_crossover(),
                    new_pop@[j],
                ),
    {
        let n = self.pop.len();
        let mut new_pop: Vec<Solution> = Vec::new();
        let mut i: usize = 0;
        while i < n
            invariant
                i <= n,
                n == self.spec_pop().len(),
                self.wf(),
                obj_total(self.spec_obj()),
                self.spec_ready(),
                self.spec_np() > 3,
                new_pop@.len() == i,
                forall|j: int|
                    0 <= j < i ==> (#[trigger] new_pop@[j]).position@.len() == self.spec_dim(),
                forall|j: int|
                    0 <= j < i ==> fit_rank((#[trigger] new_pop@[j]).fitness) <= fit_rank(
                        self.spec_pop()[j].fitness,
                    ),
                forall|j: int|
                    0 <= j < i ==> (fit_from(
                        self.spec_obj(),
                        (#[trigger] new_pop@[j]).position@,
                        new_pop@[j].fitness,
                    ) || (new_pop@[j].position@ == self.spec_pop()[j].position@
                        && new_pop@[j].fitness == self.spec_pop()[j].fitness)),
                forall|j: int|
                    0 <= j < i ==> #[trigger] classic_slot_outcome(
                        self.spec_obj(),
                        self.spec_pop(),
                        j,
                        self.spec_weight(),
                        self.spec_crossover(),
                        new_pop@[j],
                    ),
            decreases n - i,
        {
            new_pop.push(self.classic_slot(i));
            i += 1;
        }
        new_pop
    }

    /// Build the next generation by the directional strategy.
    fn build_directional(&self) -> (new_pop: Vec<Solution>)
        requires
            self.wf(),
            obj_total(self.spec_obj()),
            self.spec_ready(),
            self.spec_np() > 2,
        ensures
            new_pop@.len() == self.spec_pop().len(),
            forall|j: int|
                0 <= j < new_pop@.len() ==> (#[trigger] new_pop@[j]).position@.len()
                    == self.spec_dim(),
            forall|j: int|
                0 <= j < new_pop@.len() ==> fit_rank((#[trigger] new_pop@[j]).fitness) <= fit_rank(
                    self.spec_pop()[j].fitness,
                ),
            forall|j: int|
                0 <= j < new_pop@.len() ==> (fit_from(
                    self.spec_obj(),
                    (#[trigger] new_pop@[j]).position@,
                    new_pop@[j].fitness,
                ) || (new_pop@[j].position@ == self.spec_pop()[j].position@ && new_pop@[j].fitness
                    == self.spec_pop()[j].fitness)),
            forall|j: int|
                0 <= j < new_pop@.len() ==> #[trigger] directional_slot_outcome(
                    self.spec_obj(),
                    self.spec_pop(),
                    j,
                    self.spec_weight(),
                    self.spec_crossover(),
                    new_pop@[j],
                ),
    {
        let n = self.pop.len();
        let mut new_pop: Vec<Solution> = Vec::new();
        let mut i: usize = 0;
        while i < n
            invariant
                i <= n,
                n == self.spec_pop().len(),
                self.wf(),
                obj_total(self.spec_obj()),
                self.spec_ready(),
                self.spec_np() > 2,
                new_pop@.len() == i,
                forall|j: int|
                    0 <= j < i ==> (#[trigger] new_pop@[j]).position@.len() == self.spec_dim(),
                forall|j: int|
                    0 <= j < i ==> fit_rank((#[trigger] new_pop@[j]).fitness) <= fit_rank(
                        self.spec_pop()[j].fitness,
                    ),
                forall|j: int|
                    0 <= j < i ==> (fit_from(
                        self.spec_obj(),
                        (#[trigger] new_pop@[j]).position@,
                        new_pop@[j].fitness,
                    ) || (new_pop@[j].position@ == self.spec_pop()[j].position@
                        && new_pop@[j].fitness == self.spec_pop()[j].fitness)),
                forall|j: int|
                    0 <= j < i ==> #[trigger] directional_slot_outcome(
                        self.spec_obj(),
                        self.spec_pop(),
                        j,
                        self.spec_weight(),
                        self.spec_crossover(),
                        new_pop@[j],
                    ),
            decreases n - i,
        {
            new_pop.push(self.directional_slot(i));
            i += 1;
        }
        new_pop
    }

    /// Install a fully built next generation: the population is replaced
    /// slot for slot and the best index recomputed as the first minimum.
    /// Meant for drivers that build the generation's slots in parallel
    /// through `classic_slot` or `directional_slot`: those contracts
    /// discharge the caller's obligations here — every slot's fitness
    /// came from the objective and ranks no worse than its incumbent's —
    /// so a committed generation can never regress the best fitness. The
    /// shape (size and dimension) is checked at run time.
    pub fn commit_generation(&mut self, next_gen: Vec<Solution>) -> (res: Result<(), StepError>)
        requires
            old(self).wf(),
            evaluated(next_gen@, old(self).spec_obj()),
            forall|i: int|
                0 <= i < next_gen@.len() ==> fit_rank((#[trigger] next_gen@[i]).fitness)
                    <= fit_rank(old(self).spec_pop()[i].fitness),
        ensures
            final(self).wf(),
            res is Ok <==> (old(self).spec_ready() && next_gen@.len()
                == old(self).spec_pop().len() && forall|i: int|
                0 <= i < next_gen@.len() ==> (#[trigger] next_gen@[i]).position@.len() == old(
                    self,
                ).spec_dim()),
            res is Err ==> *final(self) == *old(self),
            res == Err::<(), StepError>(StepError::NotReady) <==> !old(self).spec_ready(),
            res is Ok ==> {
                &&& final(self).spec_ready()
                &&& final(self).same_config(*old(self))
                &&& final(self).spec_pop() == next_gen@
                &&& is_first_min(final(self).spec_pop(), final(self).spec_best() as int)
                &&& fit_rank(final(self).spec_best_fit()) <= fit_rank(old(self).spec_best_fit())
            },
    {
        if !self.ready {
            return Err(StepError::NotReady);
        }
        if next_gen.len() != self.pop.len() {
            return Err(StepError::GenerationMismatch);
        }
        let mut k: usize = 0;
        while k < next_gen.len()
            invariant
                k <= next_gen@.len(),
                forall|i: int|
                    0 <= i < k ==> (#[trigger] next_gen@[i]).position@.len() == self.spec_dim(),
                self.wf(),
                self.spec_ready(),
                next_gen@.len() == self.spec_pop().len(),
            decreases next_gen@.len() - k,
        {
            if next_gen[k].position.len() != self.d {
                return Err(StepError::GenerationMismatch);
            }
            k += 1;
        }
        let b = best_of(&next_gen);
        let ghost prev = *self;
        self.pop = next_gen;
        self.best = b;
        proof {
            lemma_best_monotone(
                prev.spec_pop(),
                self.spec_pop(),
                prev.spec_best() as int,
                b as int,
            );
        }
        Ok(())
    }

    /// One full classic generation: every slot advanced by
    /// `classic_slot` against the starting population, then the best
    /// index recomputed. The population keeps its size, every slot is
    /// the greedy choice against a really-built classic trial, and the
    /// tracked best fitness is non-increasing. On an engine configured
    /// for the classic strategy this succeeds whenever the engine is
    /// ready; only an engine initialized for the directional strategy
    /// can be too small for the three donors drawn here.
    pub fn step(&mut self) -> (res: Result<(), StepError>)
        requires
            old(self).wf(),
            obj_total(old(self).spec_obj()),
        ensures
            final(self).wf(),
            res is Ok <==> (old(self).spec_ready() && old(self).spec_np() > 3),
            res is Err ==> *final(self) == *old(self),
            res == Err::<(), StepError>(StepError::NotReady) <==> !old(self).spec_ready(),
            res is Ok ==> {
                &&& final(self).spec_ready()
                &&& final(self).same_config(*old(self))
                &&& final(self).spec_pop().len() == old(self).spec_pop().len()
                &&& forall|j: int|
                    0 <= j < final(self).spec_pop().len() ==> fit_rank(
                        (#[trigger] final(self).spec_pop()[j]).fitness,
                    ) <= fit_rank(old(self).spec_pop()[j].fitness)
                &&& forall|j: int|
                    0 <= j < final(self).spec_pop().len() ==> #[trigger] classic_slot_outcome(
                        old(self).spec_obj(),
                        old(self).spec_pop(),
                        j,
                        old(self).spec_weight(),
                        old(self).spec_crossover(),
                        final(self).spec_pop()[j],
                    )
                &&& fit_rank(final(self).spec_best_fit()) <= fit_rank(old(self).spec_best_fit())
                &&& is_first_min(final(self).spec_pop(), final(self).spec_best() as int)
            },
    {
        if !self.ready {
            return Err(StepError::NotReady);
        }
        if self.np <= 3 {
            return Err(StepError::PopulationTooSmall);
        }
        let new_pop = self.build_classic();
        let b = best_of(&new_pop);
        let ghost prev = *self;
        self.pop = new_pop;
        self.best = b;
        proof {
            lemma_best_monotone(
                prev.spec_pop(),
                self.spec_pop(),
                prev.spec_best() as int,
                b as int,
            );
        }
        Ok(())
    }

    /// One full directional generation, with the same guarantees as
    /// `step` under the directional donor requirement.
    pub fn gradient_step(&mut self) -> (res: Result<(), StepError>)
        requires
            old(self).wf(),
            obj_total(old(self).spec_obj()),
        ensures
            final(self).wf(),
            res is Ok <==> (old(self).spec_ready() && old(self).spec_np() > 2),
            res is Err ==> *final(self) == *old(self),
            res == Err::<(), StepError>(StepError::NotReady) <==> !old(self).spec_ready(),
            res is Ok ==> {
                &&& final(self).spec_ready()
                &&& final(self).same_config(*old(self))
                &&& final(self).spec_pop().len() == old(self).spec_pop().len()
                &&& forall|j: int|
                    0 <= j < final(self).spec_pop().len() ==> fit_rank(
                        (#[trigger] final(self).spec_pop()[j]).fitness,
                    ) <= fit_rank(old(self).spec_pop()[j].fitness)
                &&& forall|j: int|
                    0 <= j < final(self).spec_pop().len() ==> #[trigger] directional_slot_outcome(
                        old(self).spec_obj(),
                        old(self).spec_pop(),
                        j,
                        old(self).spec_weight(),
                        old(self).spec_crossover(),
                        final(self).spec_pop()[j],
                    )
                &&& fit_rank(final(self).spec_best_fit()) <= fit_rank(old(self).spec_best_fit())
                &&& is_first_min(final(self).spec_pop(), final(self).spec_best() as int)
            },
    {
        if !self.ready {
            return Err(StepError::NotReady);
        }
        if self.np <= 2 {
            return Err(StepError::PopulationTooSmall);
        }
        let new_pop = self.build_directional();
        let b = best_of(&new_pop);
        let ghost prev = *self;
        self.pop = new_pop;
        self.best = b;
        proof {
            lemma_best_monotone(
                prev.spec_pop(),
                self.spec_pop(),
                prev.spec_best() as int,
                b as int,
            );
        }
        Ok(())
    }

    /// The iteration protocol's pull: advance one generation by the
    /// configured strategy and yield a copy of the best candidate. A
    /// ready engine always yields — initialization already rejected any
    /// population the configured strategy cannot draw donors from — and
    /// an engine that was never initialized yields nothing and stays
    /// untouched.
    pub fn next(&mut self) -> (r: Option<Solution>)
        requires
            old(self).wf(),
            obj_total(old(self).spec_obj()),
        ensures
            final(self).wf(),
            r is Some <==> old(self).spec_ready(),
            r is None ==> *final(self) == *old(self),
            r matches Some(s) ==> {
                &&& final(self).spec_ready()
                &&& final(self).same_config(*old(self))
                &&& final(self).spec_pop().len() == old(self).spec_pop().len()
                &&& s.position@ == final(self).spec_pop()[final(self).spec_best() as int].position@
                &&& s.fitness == final(self).spec_best_fit()
                &&& fit_rank(final(self).spec_best_fit()) <= fit_rank(old(self).spec_best_fit())
                &&& old(self).spec_strategy() == Strategy::Classic ==> forall|j: int|
                    0 <= j < final(self).spec_pop().len() ==> #[trigger] classic_slot_outcome(
                        old(self).spec_obj(),
                        old(self).spec_pop(),
                        j,
                        old(self).spec_weight(),
                        old(self).spec_crossover(),
                        final(self).spec_pop()[j],
                    )
                &&& old(self).spec_strategy() == Strategy::Directional ==> forall|j: int|
                    0 <= j < final(self).spec_pop().len() ==> #[trigger] directional_slot_outcome(
                        old(self).spec_obj(),
                        old(self).spec_pop(),
                        j,
                        old(self).spec_weight(),
                        old(self).spec_crossover(),
                        final(self).spec_pop()[j],
                    )
            },
    {
        let res = match self.strategy {
            Strategy::Classic => self.step(),
            Strategy::Directional => self.gradient_step(),
        };
        match res {
            Ok(()) => Some(copy_solution(&self.pop[self.best])),
            Err(_) => None,
        }
    }
}

} // verus!
