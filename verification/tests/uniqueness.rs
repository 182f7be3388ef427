use std::collections::HashMap;

use idgen::{IdGen, J64IdGen};

fn assert_all_unique(id_gen: &mut impl IdGen<u64>) {
    let id_vec: Vec<u64> = (0..10_000_000).map(|_| id_gen.next()).collect();
    let mut id_cnt = HashMap::<u64, u64>::new();
    for id in id_vec {
        *id_cnt.entry(id).or_default() += 1;
    }
    assert!(id_cnt.values().all(|cnt| *cnt == 1))
}

#[test]
fn test_regular() {
    let mut id_gen = J64IdGen::new();
    assert_all_unique(&mut id_gen);
}

#[test]
fn ids_are_unique_when_the_clock_stands_still() {
    let mut id_gen = J64IdGen::from_parts(0, 1_700_000_000_000);
    let mut seen = HashMap::<u64, u64>::new();
    for _ in 0..100_000 {
        let id = id_gen.next_with(1_700_000_000_000, 0);
        *seen.entry(id).or_default() += 1;
    }
    assert_eq!(seen.len(), 100_000);
    assert!(seen.values().all(|cnt| *cnt == 1));
}

#[test]
fn ids_are_unique_when_the_clock_goes_back() {
    let mut id_gen = J64IdGen::from_parts(0, 1_700_000_000_000);
    let mut seen = HashMap::<u64, u64>::new();
    for k in 0..10_000u64 {
        let id = id_gen.next_with(1_700_000_000_000 - k, 9);
        *seen.entry(id).or_default() += 1;
    }
    assert_eq!(seen.len(), 10_000);
}

#[test]
fn ids_repeat_once_the_timestamp_field_has_gone_round() {
    let span: u64 = 1 << 40;
    let mut id_gen = J64IdGen::from_parts(0xFFFF, 99);
    let first = id_gen.next_with(100, 5);
    let mut later = J64IdGen::from_parts(0xFFFF, 99);
    let second = later.next_with(100 + span, 5);
    assert_eq!(first, second);
}
