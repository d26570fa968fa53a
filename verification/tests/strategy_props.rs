//! The crossover builders on concrete draws: the forced dimension, the
//! gate, and bit-exact agreement of the mutant arithmetic with hardware
//! doubles.

use diffevo::strategy::{crossover_classic, crossover_directional};

fn bits(v: &[f64]) -> Vec<u64> {
    v.iter().map(|x| x.to_bits()).collect()
}

const W: f64 = 0.8;
const GATE_SHUT: f64 = 1.0;  // a draw of 1.0 never falls below cr = 0.5
const GATE_OPEN: f64 = 0.0;  // a draw of 0.0 falls below any positive cr

#[test]
fn forced_dimension_is_always_overwritten() {
    let target = [1.5, -2.0, 0.25];
    let a = [0.5, 3.0, -1.0];
    let b = [2.0, -1.5, 4.0];
    let c = [0.25, 1.0, -2.5];
    for r in 0..3 {
        // every gate draw fails the cr test, so only the forced dimension moves
        let t = crossover_classic(
            &bits(&target),
            &bits(&a),
            &bits(&b),
            &bits(&c),
            W.to_bits(),
            0.5f64.to_bits(),
            r,
            &bits(&[GATE_SHUT; 3]),
        );
        for k in 0..3 {
            let expect = if k == r {
                a[k] + W * (b[k] - c[k])
            } else {
                target[k]
            };
            assert_eq!(t[k], expect.to_bits(), "r={r} k={k}");
        }
    }
}

#[test]
fn classic_mutant_matches_hardware_arithmetic() {
    let target = [1.5, -2.0, 0.25, 1e10];
    let a = [0.5, 3.0, -1.0, 2.5e-3];
    let b = [2.0, -1.5, 4.0, -7.0];
    let c = [0.25, 1.0, -2.5, 0.125];
    let t = crossover_classic(
        &bits(&target),
        &bits(&a),
        &bits(&b),
        &bits(&c),
        W.to_bits(),
        1.0f64.to_bits(),
        0,
        &bits(&[GATE_OPEN; 4]),
    );
    for k in 0..4 {
        let expect = a[k] + W * (b[k] - c[k]);
        assert_eq!(t[k], expect.to_bits(), "k={k}");
    }
}

#[test]
fn directional_zero_sum_leaves_target_untouched() {
    let target = [1.5, -2.0, 0.25];
    let a = [0.5, 3.0, -1.0];
    let b = [2.0, -1.5, 4.0];
    // fitness sum is exactly zero: the step is defined as zero
    let t = crossover_directional(
        &bits(&target),
        &bits(&a),
        &bits(&b),
        2.0f64.to_bits(),
        5.0f64.to_bits(),
        (-5.0f64).to_bits(),
        W.to_bits(),
        1.0f64.to_bits(),
        0,
        &bits(&[GATE_OPEN; 3]),
    );
    assert_eq!(t, bits(&target));
}

#[test]
fn directional_step_matches_hardware_arithmetic() {
    let target = [1.5, -2.0, 0.25];
    let a = [0.5, 3.0, -1.0];
    let b = [2.0, -1.5, 4.0];
    let fx = 2.0f64;
    let fa = 3.0f64;
    let fb = 1.5f64;
    let t = crossover_directional(
        &bits(&target),
        &bits(&a),
        &bits(&b),
        fx.to_bits(),
        fa.to_bits(),
        fb.to_bits(),
        W.to_bits(),
        1.0f64.to_bits(),
        0,
        &bits(&[GATE_OPEN; 3]),
    );
    // sign convention: zero for a zero difference, else by the sign bit
    let sgn = |d: f64| if d == 0.0 { 0.0 } else if d.is_sign_negative() { -1.0 } else { 1.0 };
    let wa = fb * sgn(fx - fa) / (fa + fb);
    let wb = fa * sgn(fx - fb) / (fa + fb);
    for k in 0..3 {
        let expect = target[k] + W * (wa * (a[k] - target[k]) + wb * (b[k] - target[k]));
        assert_eq!(t[k], expect.to_bits(), "k={k}");
    }
}

#[test]
fn shut_gates_keep_every_unforced_dimension() {
    let target = [1.5, -2.0];
    let a = [0.5, 3.0];
    let b = [2.0, -1.5];
    let t = crossover_directional(
        &bits(&target),
        &bits(&a),
        &bits(&b),
        2.0f64.to_bits(),
        3.0f64.to_bits(),
        1.5f64.to_bits(),
        W.to_bits(),
        0.5f64.to_bits(),
        1,
        &bits(&[GATE_SHUT; 2]),
    );
    assert_eq!(t[0], target[0].to_bits());
    assert_ne!(t[1], target[1].to_bits());
}
