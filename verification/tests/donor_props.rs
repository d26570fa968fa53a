//! The donor selector on concrete parameters: size, range, exclusion and
//! distinctness of every drawn index set.

use diffevo::donors::select_donors;

#[test]
fn five_avoid_two_count_three() {
    for _ in 0..200 {
        let sel = select_donors(3, 5, 2);
        assert_eq!(sel.len(), 3);
        for &x in sel.iter() {
            assert!(x < 5);
            assert_ne!(x, 2);
        }
        for i in 0..3 {
            for j in (i + 1)..3 {
                assert_ne!(sel[i], sel[j]);
            }
        }
    }
}

#[test]
fn tight_selection_is_forced() {
    // population 4, avoid 1, count 3: the other three indices must all appear
    for _ in 0..50 {
        let mut sel = select_donors(3, 4, 1);
        sel.sort();
        assert_eq!(sel, vec![0, 2, 3]);
    }
}

#[test]
fn every_valid_index_shows_up_eventually() {
    let mut seen = [false; 5];
    for _ in 0..300 {
        for &x in select_donors(2, 5, 0).iter() {
            seen[x] = true;
        }
    }
    assert_eq!(seen, [false, true, true, true, true]);
}
