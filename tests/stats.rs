use earth_distance_game::stats::{Stats, StatsType};

#[test]
fn mean_of_recorded_errors() {
    let mut s = Stats::new();
    for e in [-290i64, 1_000, -2_500] {
        s.add_guess(e);
    }
    assert_eq!(s.wrong_by(), &vec![-290, 1_000, -2_500]);
    assert_eq!(s.running_total(), 3_790);
    assert_eq!(s.arithmetic_mean(), 1_263_333_333_333);
    assert_eq!(s.count(), 3);
}

#[test]
fn empty_stats_have_zero_mean() {
    let s = Stats::new();
    assert_eq!(s.count(), 0);
    assert_eq!(s.running_total(), 0);
    assert_eq!(s.arithmetic_mean(), 0);
}

#[test]
fn extreme_values_do_not_overflow() {
    let mut s = Stats::new();
    s.add_guess(i64::MIN);
    s.add_guess(i64::MIN);
    assert_eq!(s.running_total(), 2 * (1u128 << 63));
    assert_eq!(s.arithmetic_mean(), (1u128 << 63) * 1_000_000_000);
}

#[test]
fn from_history_records_in_order() {
    let s = Stats::from_history(&vec![3, -4, 5]);
    assert_eq!(s.wrong_by(), &vec![3, -4, 5]);
    assert_eq!(s.running_total(), 12);
    assert_eq!(s.arithmetic_mean(), 4_000_000_000);
}

#[test]
fn reset_after_three_guesses_empties_stats() {
    let mut s = Stats::new();
    s.add_guess(10);
    s.add_guess(-20);
    s.add_guess(30);
    s.reset();
    assert!(s.wrong_by().is_empty());
    assert_eq!(s.running_total(), 0);
    assert_eq!(s.arithmetic_mean(), 0);
    let snap = s.snapshot();
    assert!(snap.wrong_by().is_empty());
    assert_eq!(snap.arithmetic_mean(), 0);
    s.reset();
    assert_eq!(s.count(), 0);
}

#[test]
fn snapshot_copies_every_field() {
    let s = Stats::from_history(&vec![7, -8]);
    let snap = s.snapshot();
    assert_eq!(snap.wrong_by(), &vec![7, -8]);
    assert_eq!(snap.running_total(), 15);
    assert_eq!(snap.arithmetic_mean(), 7_500_000_000);
}

#[test]
fn storage_keys() {
    assert_eq!(Stats::get_key(StatsType::Offby), "yew.stats.offby");
    assert_eq!(Stats::get_key(StatsType::Normalised), "yew.stats.normalised");
}

#[test]
fn store_guess_records_and_names_key() {
    let mut s = Stats::new();
    let key = s.store_guess(-42, StatsType::Normalised);
    assert_eq!(key, "yew.stats.normalised");
    assert_eq!(s.wrong_by(), &vec![-42]);
    assert_eq!(s.arithmetic_mean(), 42_000_000_000);
}

#[test]
fn mean_keeps_fractions() {
    let s = Stats::from_history(&vec![1, 2]);
    assert_eq!(s.arithmetic_mean(), 1_500_000_000);
    let s = Stats::from_history(&vec![1, -290]);
    assert_eq!(s.arithmetic_mean(), 145_500_000_000);
}
