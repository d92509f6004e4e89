use monitor::series::{BoundedSeries, Sample};

fn values(s: &BoundedSeries) -> Vec<u64> {
    s.snapshot().iter().map(|x| x.value).collect()
}

#[test]
fn new_series_is_empty() {
    let s = BoundedSeries::new(4, 0, 100);
    assert_eq!(s.len(), 0);
    assert_eq!(s.capacity(), 4);
    assert_eq!(s.min(), 0);
    assert_eq!(s.max(), 100);
    assert!(s.snapshot().is_empty());
}

#[test]
fn pushes_keep_most_recent_in_order() {
    let mut s = BoundedSeries::new(3, 0, 100);
    for (i, v) in [10u64, 20, 30, 40, 50].iter().enumerate() {
        s.push(i as u64, *v);
        assert!(s.len() <= 3);
    }
    assert_eq!(values(&s), vec![30, 40, 50]);
    assert_eq!(
        s.snapshot(),
        vec![
            Sample { timestamp: 2, value: 30 },
            Sample { timestamp: 3, value: 40 },
            Sample { timestamp: 4, value: 50 },
        ]
    );
}

#[test]
fn fewer_pushes_than_capacity_are_all_kept() {
    let mut s = BoundedSeries::new(5, 0, 100);
    s.push(1, 7);
    s.push(2, 8);
    assert_eq!(values(&s), vec![7, 8]);
}

#[test]
fn capacity_one_keeps_last_push() {
    let mut s = BoundedSeries::new(1, 0, 10);
    s.push(1, 1);
    s.push(2, 2);
    s.push(3, 3);
    assert_eq!(s.snapshot(), vec![Sample { timestamp: 3, value: 3 }]);
}

#[test]
fn values_outside_range_are_stored() {
    let mut s = BoundedSeries::new(2, 10, 20);
    s.push(1, 5);
    s.push(2, 500);
    assert_eq!(values(&s), vec![5, 500]);
}

#[test]
fn snapshot_does_not_change_series() {
    let mut s = BoundedSeries::new(2, 0, 10);
    s.push(1, 4);
    let a = s.snapshot();
    let b = s.snapshot();
    assert_eq!(a, b);
    assert_eq!(s.len(), 1);
}
