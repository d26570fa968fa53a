//! The two mutation strategies: classic differential mutation and the
//! gradient-informed directional variant.
//!
//! Both share the crossover gate: one forced dimension `r` is always
//! overwritten, every other dimension only when its uniform draw falls
//! below the crossover probability. The draws and the forced dimension
//! come in as arguments, so each builder is a deterministic function and
//! its contract pins every coordinate of the trial it returns.

use vstd::prelude::*;
use crate::bits::{val_key, is_zero_bits, is_zero, lt_bits, sign_of_bits, sign_of, apply_sign_bits,
    apply_sign};
use crate::candidate::Solution;
use crate::fp::{add_bits_spec, sub_bits_spec, mul_bits_spec, div_bits_spec, add_bits, sub_bits,
    mul_bits, div_bits};

verus! {

/// Whether dimension `k` is overwritten: it is the forced dimension `r`,
/// or its uniform draw `u` lies strictly below the crossover probability
/// `cr` (both compared as the binary64 values their bits encode).
pub open spec fn gate_open(u: u64, cr: u64, k: int, r: int) -> bool {
    k == r || val_key(u) < val_key(cr)
}

/// The classic mutant coordinate: `a + w * (b - c)` on binary64 values,
/// with `w` the differential weight.
pub open spec fn classic_value(a: u64, b: u64, c: u64, w: u64) -> u64 {
    add_bits_spec(a, mul_bits_spec(w, sub_bits_spec(b, c)))
}

/// The directional weight on donor `a`:
/// `fit_b * sign(target_fit - fit_a) / (fit_a + fit_b)`, where the sign,
/// by convention, is zero for a zero difference and the product with it is
/// exact. Meaningful only when `fit_a + fit_b` is non-zero.
pub open spec fn dir_weight_a(target_fit: u64, fit_a: u64, fit_b: u64) -> u64 {
    div_bits_spec(
        apply_sign_bits(fit_b, sign_of_bits(sub_bits_spec(target_fit, fit_a))),
        add_bits_spec(fit_a, fit_b),
    )
}

/// The directional weight on donor `b`:
/// `fit_a * sign(target_fit - fit_b) / (fit_a + fit_b)`.
pub open spec fn dir_weight_b(target_fit: u64, fit_a: u64, fit_b: u64) -> u64 {
    div_bits_spec(
        apply_sign_bits(fit_a, sign_of_bits(sub_bits_spec(target_fit, fit_b))),
        add_bits_spec(fit_a, fit_b),
    )
}

/// The directional trial coordinate:
/// `t + w * (wa * (a - t) + wb * (b - t))` on binary64 values.
pub open spec fn directional_value(t: u64, a: u64, b: u64, wa: u64, wb: u64, w: u64) -> u64 {
    add_bits_spec(
        t,
        mul_bits_spec(
            w,
            add_bits_spec(
                mul_bits_spec(wa, sub_bits_spec(a, t)),
                mul_bits_spec(wb, sub_bits_spec(b, t)),
            ),
        ),
    )
}

/// The coordinates `t` are the classic mutation of slot `i` of `pop`
/// under the three distinct donors `a`, `b`, `c` (all valid slots other
/// than `i`), together with a forced dimension and gate words: each
/// open gate carries the mutant value, every other coordinate the
/// target's.
pub open spec fn classic_trial_from(
    pop: Seq<Solution>,
    i: int,
    w: u64,
    cr: u64,
    a: int,
    b: int,
    c: int,
    rr: int,
    g: Seq<u64>,
    t: Seq<u64>,
) -> bool {
    &&& 0 <= a < pop.len() && a != i
    &&& 0 <= b < pop.len() && b != i
    &&& 0 <= c < pop.len() && c != i
    &&& a != b && a != c && b != c
    &&& t.len() == pop[i].position@.len()
    &&& g.len() == t.len()
    &&& 0 <= rr < t.len()
    &&& forall|k: int|
        0 <= k < t.len() ==> t[k] == (if gate_open(g[k], cr, k, rr) {
            classic_value(pop[a].position@[k], pop[b].position@[k], pop[c].position@[k], w)
        } else {
            pop[i].position@[k]
        })
}

/// Some valid donor triple, forced dimension and gate draws make `t` a
/// classic trial for slot `i`.
pub open spec fn is_classic_trial(pop: Seq<Solution>, i: int, w: u64, cr: u64, t: Seq<u64>) -> bool {
    exists|a: int, b: int, c: int, rr: int, g: Seq<u64>|
        #[trigger] classic_trial_from(pop, i, w, cr, a, b, c, rr, g, t)
}

/// The coordinates `t` are the directional mutation of slot `i` of
/// `pop` under the two distinct donors `a` and `b`, together with a
/// forced dimension and gate words; a zero donor fitness sum gives the
/// target back unchanged.
pub open spec fn directional_trial_from(
    pop: Seq<Solution>,
    i: int,
    w: u64,
    cr: u64,
    a: int,
    b: int,
    rr: int,
    g: Seq<u64>,
    t: Seq<u64>,
) -> bool {
    &&& 0 <= a < pop.len() && a != i
    &&& 0 <= b < pop.len() && b != i
    &&& a != b
    &&& t.len() == pop[i].position@.len()
    &&& g.len() == t.len()
    &&& 0 <= rr < t.len()
    &&& is_zero_bits(add_bits_spec(pop[a].fitness, pop[b].fitness)) ==> t == pop[i].position@
    &&& !is_zero_bits(add_bits_spec(pop[a].fitness, pop[b].fitness)) ==> forall|k: int|
        0 <= k < t.len() ==> t[k] == (if gate_open(g[k], cr, k, rr) {
            directional_value(
                pop[i].position@[k],
                pop[a].position@[k],
                pop[b].position@[k],
                dir_weight_a(pop[i].fitness, pop[a].fitness, pop[b].fitness),
                dir_weight_b(pop[i].fitness, pop[a].fitness, pop[b].fitness),
                w,
            )
        } else {
            pop[i].position@[k]
        })
}

/// Some valid donor pair, forced dimension and gate draws make `t` a
/// directional trial for slot `i`.
pub open spec fn is_directional_trial(
    pop: Seq<Solution>,
    i: int,
    w: u64,
    cr: u64,
    t: Seq<u64>,
) -> bool {
    exists|a: int, b: int, rr: int, g: Seq<u64>|
        #[trigger] directional_trial_from(pop, i, w, cr, a, b, rr, g, t)
}

/// Build a classic (rand/1/bin) trial vector from the target and three
/// donor positions. Dimension `k` of the result is the mutant value
/// `a[k] + w * (b[k] - c[k])` when its gate is open, the target's value
/// otherwise; the forced dimension `r` carries the mutant value whatever
/// the draws in `gates` were.
pub fn crossover_classic(
    target: &Vec<u64>,
    a: &Vec<u64>,
    b: &Vec<u64>,
    c: &Vec<u64>,
    w: u64,
    cr: u64,
    r: usize,
    gates: &Vec<u64>,
) -> (t: Vec<u64>)
    requires
        a.len() == target.len(),
        b.len() == target.len(),
        c.len() == target.len(),
        gates.len() == target.len(),
        r < target.len(),
    ensures
        t.len() == target.len(),
        forall|k: int|
            0 <= k < t.len() ==> t@[k] == (if gate_open(gates@[k], cr, k, r as int) {
                classic_value(a@[k], b@[k], c@[k], w)
            } else {
                target@[k]
            }),
        t@[r as int] == classic_value(a@[r as int], b@[r as int], c@[r as int], w),
{
    let n = target.len();
    let mut t: Vec<u64> = Vec::new();
    let mut k: usize = 0;
    while k < n
        invariant
            k <= n,
            t.len() == k,
            n == target.len(),
            a.len() == n,
            b.len() == n,
            c.len() == n,
            gates.len() == n,
            r < n,
            forall|j: int|
                0 <= j < k ==> t@[j] == (if gate_open(gates@[j], cr, j, r as int) {
                    classic_value(a@[j], b@[j], c@[j], w)
                } else {
                    target@[j]
                }),
        decreases n - k,
    {
        if k == r || lt_bits(gates[k], cr) {
            t.push(add_bits(a[k], mul_bits(w, sub_bits(b[k], c[k]))));
        } else {
            t.push(target[k]);
        }
        k += 1;
    }
    t
}

/// Build a directional trial vector from the target and two donors, with
/// their fitness values steering the step. When the donors' fitness sum
/// is zero the step is defined as zero and the trial equals the target in
/// every dimension, so no division by zero ever reaches the position;
/// otherwise an open gate at `k` yields
/// `target[k] + w * (wa * (a[k] - target[k]) + wb * (b[k] - target[k]))`,
/// and the forced dimension `r` is overwritten whatever the draws were.
pub fn crossover_directional(
    target: &Vec<u64>,
    a: &Vec<u64>,
    b: &Vec<u64>,
    target_fit: u64,
    fit_a: u64,
    fit_b: u64,
    w: u64,
    cr: u64,
    r: usize,
    gates: &Vec<u64>,
) -> (t: Vec<u64>)
    requires
        a.len() == target.len(),
        b.len() == target.len(),
        gates.len() == target.len(),
        r < target.len(),
    ensures
        t.len() == target.len(),
        is_zero_bits(add_bits_spec(fit_a, fit_b)) ==> t@ == target@,
        !is_zero_bits(add_bits_spec(fit_a, fit_b)) ==> forall|k: int|
            0 <= k < t.len() ==> t@[k] == (if gate_open(gates@[k], cr, k, r as int) {
                directional_value(
                    target@[k],
                    a@[k],
                    b@[k],
                    dir_weight_a(target_fit, fit_a, fit_b),
                    dir_weight_b(target_fit, fit_a, fit_b),
                    w,
                )
            } else {
                target@[k]
            }),
        !is_zero_bits(add_bits_spec(fit_a, fit_b)) ==> t@[r as int] == directional_value(
            target@[r as int],
            a@[r as int],
            b@[r as int],
            dir_weight_a(target_fit, fit_a, fit_b),
            dir_weight_b(target_fit, fit_a, fit_b),
            w,
        ),
{
    let n = target.len();
    let sum = add_bits(fit_a, fit_b);
    let frozen = is_zero(sum);
    let wa = if frozen {
        0u64
    } else {
        div_bits(apply_sign(fit_b, sign_of(sub_bits(target_fit, fit_a))), sum)
    };
    let wb = if frozen {
        0u64
    } else {
        div_bits(apply_sign(fit_a, sign_of(sub_bits(target_fit, fit_b))), sum)
    };
    let mut t: Vec<u64> = Vec::new();
    let mut k: usize = 0;
    while k < n
        invariant
            k <= n,
            t.len() == k,
            n == target.len(),
            a.len() == n,
            b.len() == n,
            gates.len() == n,
            r < n,
            frozen == is_zero_bits(add_bits_spec(fit_a, fit_b)),
            !frozen ==> wa == dir_weight_a(target_fit, fit_a, fit_b),
            !frozen ==> wb == dir_weight_b(target_fit, fit_a, fit_b),
            frozen ==> forall|j: int| 0 <= j < k ==> t@[j] == target@[j],
            !frozen ==> forall|j: int|
                0 <= j < k ==> t@[j] == (if gate_open(gates@[j], cr, j, r as int) {
                    directional_value(target@[j], a@[j], b@[j], wa, wb, w)
                } else {
                    target@[j]
                }),
        decreases n - k,
    {
        if !frozen && (k == r || lt_bits(gates[k], cr)) {
            let step = add_bits(
                mul_bits(wa, sub_bits(a[k], target[k])),
                mul_bits(wb, sub_bits(b[k], target[k])),
            );
            t.push(add_bits(target[k], mul_bits(w, step)));
        } else {
            t.push(target[k]);
        }
        k += 1;
    }
    proof {
        if is_zero_bits(add_bits_spec(fit_a, fit_b)) {
            assert(t@ =~= target@);
        }
    }
    t
}

} // verus!
