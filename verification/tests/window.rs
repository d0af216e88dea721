use rabbitui::chart::ChartData;

#[test]
fn push_keeps_only_capacity_newest_samples() {
    // capacity + k pushes (k >= 1) leave exactly capacity samples: the k
    // most recent pushes plus the capacity - k immediately preceding ones,
    // ticks increasing by one.
    let mut w = ChartData::new(3);
    for y in [10, 11, 12, 13, 14] {
        w.push(y);
    }
    assert_eq!(w.len(), 3);
    assert_eq!(w.sample_at(0), (2, 12));
    assert_eq!(w.sample_at(1), (3, 13));
    assert_eq!(w.sample_at(2), (4, 14));
}

#[test]
fn ticks_increase_by_one_per_push() {
    let mut w = ChartData::new(4);
    for y in 0..7u64 {
        w.push(y * 100);
    }
    for i in 0..w.len() - 1 {
        assert_eq!(w.sample_at(i + 1).0, w.sample_at(i).0 + 1);
    }
}

#[test]
fn window_of_100_after_150_pushes() {
    // The end-to-end charting scenario: capacity 100, pushes of 0..150.
    let mut w = ChartData::new(100);
    for i in 0..150u64 {
        w.push(i);
    }
    assert_eq!(w.x_bounds(), (50, 150));
    assert_eq!(w.sample_at(0), (50, 50));
    assert_eq!(w.len(), 100);
    assert_eq!(w.last_value(), 149);
}

#[test]
fn x_bounds_before_window_fills() {
    let mut w = ChartData::new(100);
    w.push(1);
    w.push(2);
    assert_eq!(w.x_bounds(), (0, 2));
    assert_eq!(w.x_max(), 2);
}

#[test]
fn y_extrema_and_last_value() {
    let mut w = ChartData::new(10);
    for y in [5u64, 9, 2, 7] {
        w.push(y);
    }
    assert_eq!(w.y_max(), 9);
    assert_eq!(w.y_min(), 2);
    assert_eq!(w.last_value(), 7);
}

#[test]
fn default_window_has_chart_capacity() {
    let mut w = ChartData::default();
    for i in 0..250u64 {
        w.push(i);
    }
    assert_eq!(w.len(), 100);
    assert_eq!(w.x_bounds(), (150, 250));
}
