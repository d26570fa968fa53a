//! The engine's protocol on concrete runs: initialization shape, fitness
//! caching, the error taxonomy, monotone best tracking, both sampling
//! policies and the committed-generation path.

use diffevo::engine::{DE, InitPolicy, Strategy, StepError};

fn sumsq(position: Vec<u64>) -> u64 {
    let mut s = 0.0f64;
    for b in position.iter() {
        let x = f64::from_bits(*b);
        s += x * x;
    }
    s.to_bits()
}

#[test]
fn initialization_shape_and_cached_fitness() {
    let de = DE::new(5, sumsq).population_size(12).init().unwrap();
    let pop = de.population();
    assert_eq!(pop.len(), 12);
    for c in pop.iter() {
        assert_eq!(c.position.len(), 5);
        assert_eq!(c.fitness, sumsq(c.position.clone()));
    }
}

#[test]
fn population_size_never_changes() {
    let mut de = DE::new(2, sumsq).population_size(7).init().unwrap();
    for _ in 0..10 {
        assert!(de.next().is_some());
        assert_eq!(de.population().len(), 7);
    }
}

#[test]
fn best_fitness_is_monotone() {
    let mut de = DE::new(2, sumsq).population_size(8).init().unwrap();
    let mut last = f64::from_bits(de.best().unwrap().fitness);
    for _ in 0..30 {
        let s = de.next().unwrap();
        let now = f64::from_bits(s.fitness);
        assert!(now <= last, "{now} > {last}");
        last = now;
    }
}

#[test]
fn best_fitness_is_monotone_directional() {
    let mut de = DE::new(2, sumsq)
        .population_size(8)
        .mutation_strategy(Strategy::Directional)
        .init().unwrap();
    let mut last = f64::from_bits(de.best().unwrap().fitness);
    for _ in 0..30 {
        let s = de.next().unwrap();
        let now = f64::from_bits(s.fitness);
        assert!(now <= last, "{now} > {last}");
        last = now;
    }
}

#[test]
fn zero_crossover_probability_moves_one_dimension_at_most() {
    // with CR = 0 no gate draw can fall below it, so a trial differs
    // from its incumbent only in the forced dimension
    let de = DE::new(3, sumsq)
        .population_size(6)
        .crossover_probability(0.0f64.to_bits())
        .init().unwrap();
    let pop = de.population();
    for i in 0..pop.len() {
        let r = de.classic_slot(i);
        let diffs = r
            .position
            .iter()
            .zip(pop[i].position.iter())
            .filter(|(a, b)| a != b)
            .count();
        assert!(diffs <= 1, "trial changed {diffs} dimensions");
    }
}

#[test]
fn zero_weight_copies_donor_coordinates() {
    // with F = 0 a mutant coordinate is the first donor's own value, so
    // every trial coordinate already occurs somewhere in the population
    let de = DE::new(2, sumsq)
        .population_size(6)
        .differential_weight(0.0f64.to_bits())
        .init().unwrap();
    let pop = de.population();
    for i in 0..pop.len() {
        let r = de.classic_slot(i);
        for k in 0..r.position.len() {
            let known = pop.iter().any(|c| c.position[k] == r.position[k]);
            assert!(known, "coordinate {k} of slot {i} came from nowhere");
        }
    }
}

#[test]
fn cached_fitness_stays_consistent_across_generations() {
    let mut de = DE::new(2, sumsq).population_size(6).init().unwrap();
    for _ in 0..5 {
        assert!(de.next().is_some());
        for c in de.population().iter() {
            assert_eq!(c.fitness, sumsq(c.position.clone()));
        }
    }
}

#[test]
fn centered_sampling_stays_in_band() {
    let de = DE::new(3, sumsq).population_size(20).init().unwrap();
    for c in de.population().iter() {
        for &b in c.position.iter() {
            let x = f64::from_bits(b);
            assert!((0.5..=1.5).contains(&x), "{x}");
        }
    }
}

#[test]
fn from_zero_sampling_stays_in_range() {
    let de = DE::new(3, sumsq)
        .population_size(20)
        .bound(2.0f64.to_bits())
        .init_policy(InitPolicy::FromZero)
        .init().unwrap();
    for c in de.population().iter() {
        for &b in c.position.iter() {
            let x = f64::from_bits(b);
            assert!((0.0..=2.0).contains(&x), "{x}");
        }
    }
}

#[test]
fn stepping_before_init_is_refused() {
    let mut de = DE::new(2, sumsq);
    assert_eq!(de.step(), Err(StepError::NotReady));
    assert_eq!(de.gradient_step(), Err(StepError::NotReady));
    assert!(de.next().is_none());
}

#[test]
fn invalid_population_is_rejected_at_init() {
    // the classic strategy needs more than three candidates
    let rejected = DE::new(1, sumsq).population_size(3).init();
    assert!(matches!(rejected, Err(StepError::PopulationTooSmall)));
    // the directional strategy needs more than two
    let rejected = DE::new(1, sumsq)
        .mutation_strategy(Strategy::Directional)
        .population_size(2)
        .init();
    assert!(matches!(rejected, Err(StepError::PopulationTooSmall)));
    // three candidates carry the directional strategy, four the classic one
    let mut small = DE::new(1, sumsq)
        .mutation_strategy(Strategy::Directional)
        .population_size(3)
        .init()
        .unwrap();
    assert_eq!(small.gradient_step(), Ok(()));
    let mut four = DE::new(1, sumsq).population_size(4).init().unwrap();
    assert_eq!(four.step(), Ok(()));
}

#[test]
fn committed_generation_replaces_the_population() {
    let mut de = DE::new(2, sumsq).population_size(6).init().unwrap();
    let n = de.population().len();
    let mut next_gen = Vec::new();
    for i in 0..n {
        next_gen.push(de.classic_slot(i));
    }
    let before: Vec<u64> = de.population().iter().map(|c| c.fitness).collect();
    assert_eq!(de.commit_generation(next_gen), Ok(()));
    let after = de.population();
    assert_eq!(after.len(), 6);
    for (c, b) in after.iter().zip(before.iter()) {
        assert!(f64::from_bits(c.fitness) <= f64::from_bits(*b));
    }
}

#[test]
fn committed_generation_shape_is_checked() {
    let mut de = DE::new(2, sumsq).population_size(6).init().unwrap();
    assert_eq!(de.commit_generation(Vec::new()), Err(StepError::GenerationMismatch));
    let mut unready = DE::new(2, sumsq);
    assert_eq!(unready.commit_generation(Vec::new()), Err(StepError::NotReady));
}

#[test]
fn best_is_none_before_init() {
    let de = DE::new(2, sumsq);
    assert!(!de.is_ready());
    assert!(de.best().is_none());
    assert!(de.population().is_empty());
}
