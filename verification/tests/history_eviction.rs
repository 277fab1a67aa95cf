use xosa_controller::history::ErrorHistory;
use xosa_controller::history::HISTORY_CAP;

#[test]
fn eviction_keeps_the_last_thousand_in_order() {
    let mut history = ErrorHistory::new();
    for sample in 0..1500i64 {
        history.record(sample);
    }
    assert_eq!(history.len(), HISTORY_CAP);
    assert_eq!(history.len(), 1000);
    let shot = history.snapshot();
    assert_eq!(shot.len(), 1000);
    for (position, (index, value)) in shot.iter().enumerate() {
        assert_eq!(*index, position);
        assert_eq!(*value, 500 + position as i64);
    }
}

#[test]
fn below_the_cap_everything_is_retained() {
    let mut history = ErrorHistory::new();
    for sample in [3i64, -1, 4, -1, 5] {
        history.record(sample);
    }
    assert_eq!(history.len(), 5);
    let shot = history.snapshot();
    assert_eq!(
        shot,
        vec![(0usize, 3i64), (1, -1), (2, 4), (3, -1), (4, 5)],
    );
}

#[test]
fn exactly_at_the_cap_nothing_is_evicted_yet() {
    let mut history = ErrorHistory::new();
    for sample in 0..1000i64 {
        history.record(sample);
    }
    assert_eq!(history.len(), 1000);
    let shot = history.snapshot();
    assert_eq!(shot[0], (0usize, 0i64));
    assert_eq!(shot[999], (999usize, 999i64));
    // one more record evicts exactly the oldest sample
    history.record(1000);
    assert_eq!(history.len(), 1000);
    let shot = history.snapshot();
    assert_eq!(shot[0], (0usize, 1i64));
    assert_eq!(shot[999], (999usize, 1000i64));
}
