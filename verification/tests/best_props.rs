//! Best tracking and greedy acceptance: first-minimum tie-break, and the
//! containment of non-finite fitness values.

use diffevo::candidate::{Solution, best_of, accepts};

fn cand(fitness: f64) -> Solution {
    Solution { position: vec![0.0f64.to_bits()], fitness: fitness.to_bits() }
}

#[test]
fn tie_break_keeps_first_minimum() {
    // indices 1 and 3 share the minimal fitness: the earlier one wins
    let pop = vec![cand(5.0), cand(1.0), cand(3.0), cand(1.0)];
    assert_eq!(best_of(&pop), 1);
}

#[test]
fn best_is_the_minimum() {
    let pop = vec![cand(0.5), cand(-2.0), cand(7.0), cand(-1.5)];
    assert_eq!(best_of(&pop), 1);
}

#[test]
fn non_finite_fitness_never_becomes_best() {
    let pop = vec![cand(f64::NAN), cand(2.0), cand(f64::INFINITY), cand(1.0)];
    assert_eq!(best_of(&pop), 3);
    let all_bad = vec![cand(f64::NAN), cand(f64::INFINITY)];
    assert_eq!(best_of(&all_bad), 0);
}

#[test]
fn greedy_acceptance_rules() {
    let b = |v: f64| v.to_bits();
    // strictly better and equal trials win; worse trials lose
    assert!(accepts(b(1.0), b(2.0)));
    assert!(accepts(b(2.0), b(2.0)));
    assert!(!accepts(b(3.0), b(2.0)));
    // a non-finite trial never replaces, not even a non-finite incumbent
    assert!(!accepts(b(f64::NAN), b(2.0)));
    assert!(!accepts(b(f64::INFINITY), b(f64::INFINITY)));
    // a finite trial always replaces a non-finite incumbent
    assert!(accepts(b(10.0), b(f64::NAN)));
    assert!(accepts(b(10.0), b(f64::INFINITY)));
}
