//! A whole run on a one-dimensional quadratic: the best fitness never
//! regresses past its first-generation value and closes in on the
//! minimum.

use diffevo::engine::DE;

fn square(position: Vec<u64>) -> u64 {
    let x = f64::from_bits(position[0]);
    (x * x).to_bits()
}

fn one_run() -> (f64, f64) {
    let mut de = DE::new(1, square).population_size(4).bound(1.0f64.to_bits()).init().unwrap();
    let first = f64::from_bits(de.next().unwrap().fitness);
    let mut last = first;
    for _ in 0..199 {
        last = f64::from_bits(de.next().unwrap().fitness);
    }
    (first, last)
}

#[test]
fn quadratic_converges_without_regressing() {
    let mut best = f64::INFINITY;
    // the search is stochastic and a four-candidate population can
    // occasionally stall on a plateau, so the tolerance is a statistical
    // claim: non-regression must hold on every run, and the minimum is
    // approached on at least one of the independent runs
    for _ in 0..12 {
        let (first, last) = one_run();
        assert!(last <= first, "{last} > {first}");
        if last < best {
            best = last;
        }
        if best < 1e-3 {
            break;
        }
    }
    assert!(best < 1e-3, "best fitness after 200 generations: {best}");
}
