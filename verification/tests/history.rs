use rkhtop::metrics::historical_metric::{recent_of, HistoricalMetric, DEFAULT_HISTORY_LENGTH};

fn window<T: Copy>(m: &HistoricalMetric<T>) -> Vec<T> {
    m.history().iter().copied().collect()
}

#[test]
fn fresh_stream_holds_its_seed() {
    let m = HistoricalMetric::new(7u64);
    assert_eq!(*m.current(), 7);
    assert_eq!(window(&m), vec![7]);
    assert!(!m.history().is_empty());
}

#[test]
fn default_capacity_is_one_hundred() {
    assert_eq!(DEFAULT_HISTORY_LENGTH, 100);
    let mut m = HistoricalMetric::new(0u64);
    for v in 1..=150u64 {
        m.update(v);
        assert!(m.history().len() <= 100);
        assert_eq!(*m.current(), v);
    }
    assert_eq!(m.history().len(), 100);
    assert_eq!(*m.history().front().unwrap(), 51);
    assert_eq!(*m.history().back().unwrap(), 150);
}

#[test]
fn full_window_evicts_oldest_first() {
    let mut m = HistoricalMetric::with_capacity(1u64, 3);
    m.update(2);
    assert_eq!(window(&m), vec![1, 2]);
    m.update(3);
    assert_eq!(window(&m), vec![1, 2, 3]);
    m.update(4);
    assert_eq!(window(&m), vec![2, 3, 4]);
    m.update(5);
    assert_eq!(window(&m), vec![3, 4, 5]);
    assert_eq!(*m.current(), 5);
}

#[test]
fn capacity_one_keeps_only_the_latest() {
    let mut m = HistoricalMetric::with_capacity(9u64, 1);
    assert_eq!(window(&m), vec![9]);
    m.update(10);
    assert_eq!(window(&m), vec![10]);
    m.update(11);
    assert_eq!(window(&m), vec![11]);
    assert_eq!(*m.current(), 11);
}

#[test]
fn capacity_zero_counts_as_one() {
    let mut m = HistoricalMetric::with_capacity(1u64, 0);
    assert_eq!(window(&m), vec![1]);
    m.update(2);
    m.update(3);
    assert_eq!(window(&m), vec![3]);
    assert_eq!(*m.current(), 3);
}

#[test]
fn current_is_the_last_pushed_value() {
    let mut m = HistoricalMetric::with_capacity(0.5f64, 4);
    for v in [1.5f64, 2.5, 3.5, 4.5, 5.5, 6.5] {
        m.update(v);
        assert_eq!(*m.current(), v);
        assert_eq!(*m.history().back().unwrap(), v);
        assert!(m.history().len() <= 4);
    }
    assert_eq!(window(&m), vec![3.5, 4.5, 5.5, 6.5]);
}

#[test]
fn recent_gives_the_newest_samples() {
    let mut m = HistoricalMetric::with_capacity(1u64, 5);
    for v in 2..=5u64 {
        m.update(v);
    }
    assert_eq!(m.recent(2), vec![4, 5]);
    assert_eq!(m.recent(5), vec![1, 2, 3, 4, 5]);
    assert_eq!(m.recent(9), vec![1, 2, 3, 4, 5]);
    assert_eq!(m.recent(0), Vec::<u64>::new());
    assert_eq!(recent_of(m.history(), 3), vec![3, 4, 5]);
}

#[test]
fn clone_is_independent() {
    let mut m = HistoricalMetric::with_capacity(1u64, 2);
    let snapshot = m.clone();
    m.update(2);
    assert_eq!(window(&snapshot), vec![1]);
    assert_eq!(window(&m), vec![1, 2]);
}
