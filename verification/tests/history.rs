use system_monitor::{MetricHistory, MetricSample};

fn sample(t: u64, v: u64) -> MetricSample {
    MetricSample {
        timestamp_ms: t,
        value: v,
    }
}

fn values(h: &MetricHistory) -> Vec<u64> {
    h.samples().iter().map(|s| s.value).collect()
}

#[test]
fn new_history_is_empty() {
    let h = MetricHistory::new(10);
    assert!(h.is_empty());
    assert_eq!(h.len(), 0);
    assert_eq!(h.capacity(), 10);
}

#[test]
fn push_keeps_insertion_order() {
    let mut h = MetricHistory::new(5);
    h.push(sample(0, 10));
    h.push(sample(1, 20));
    h.push(sample(2, 30));
    assert_eq!(h.len(), 3);
    assert!(!h.is_empty());
    assert_eq!(values(&h), vec![10, 20, 30]);
    assert_eq!(h.get(0), sample(0, 10));
    assert_eq!(h.get(2), sample(2, 30));
}

#[test]
fn push_beyond_capacity_evicts_oldest() {
    let mut h = MetricHistory::new(3);
    h.push(sample(0, 1));
    h.push(sample(1, 2));
    h.push(sample(2, 3));
    h.push(sample(3, 4));
    assert_eq!(h.len(), 3);
    assert_eq!(values(&h), vec![2, 3, 4]);
}

#[test]
fn len_is_min_of_pushes_and_capacity() {
    let mut h = MetricHistory::new(4);
    for i in 0..10u64 {
        h.push(sample(i, i));
        let expected = if i + 1 <= 4 { i + 1 } else { 4 };
        assert_eq!(h.len() as u64, expected);
    }
    assert_eq!(values(&h), vec![6, 7, 8, 9]);
}

#[test]
fn zero_capacity_retains_nothing() {
    let mut h = MetricHistory::new(0);
    h.push(sample(0, 1));
    h.push(sample(1, 2));
    assert!(h.is_empty());
}

#[test]
fn shrink_keeps_most_recent() {
    let mut h = MetricHistory::new(5);
    for i in 0..5u64 {
        h.push(sample(i, i + 1));
    }
    h.set_capacity(2);
    assert_eq!(h.capacity(), 2);
    assert_eq!(values(&h), vec![4, 5]);
}

#[test]
fn grow_discards_nothing() {
    let mut h = MetricHistory::new(2);
    h.push(sample(0, 1));
    h.push(sample(1, 2));
    h.set_capacity(10);
    assert_eq!(h.capacity(), 10);
    assert_eq!(values(&h), vec![1, 2]);
    h.push(sample(2, 3));
    assert_eq!(values(&h), vec![1, 2, 3]);
}

#[test]
fn shrink_to_zero_empties() {
    let mut h = MetricHistory::new(3);
    h.push(sample(0, 1));
    h.push(sample(1, 2));
    h.set_capacity(0);
    assert!(h.is_empty());
}

#[test]
fn set_capacity_to_current_len_keeps_all() {
    let mut h = MetricHistory::new(5);
    h.push(sample(0, 1));
    h.push(sample(1, 2));
    h.push(sample(2, 3));
    h.set_capacity(3);
    assert_eq!(values(&h), vec![1, 2, 3]);
}
