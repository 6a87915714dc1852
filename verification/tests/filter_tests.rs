use talking_airplane::moving_average::MovingAverage;

#[test]
fn fresh_filter_is_empty() {
    let f = MovingAverage::new(30);
    assert_eq!(f.counter, 0);
    assert_eq!(f.average, 0);
    assert_eq!(f.max_counter, 30);
}

#[test]
fn first_sample_becomes_the_average() {
    let mut f = MovingAverage::new(30);
    f.add(-750);
    assert_eq!(f.average, -750);
    assert_eq!(f.counter, 1);
}

#[test]
fn effective_weight_grows_then_sticks_at_the_window() {
    // Window 3: the k-th add divides by k while k <= 3, then by 3 forever.
    let mut f = MovingAverage::new(3);
    f.add(10);
    assert_eq!(f.average, 10); // (10 - 0) / 1
    assert_eq!(f.counter, 1);
    f.add(20);
    assert_eq!(f.average, 15); // 10 + (20 - 10) / 2
    assert_eq!(f.counter, 2);
    f.add(30);
    assert_eq!(f.average, 20); // 15 + (30 - 15) / 3
    assert_eq!(f.counter, 3);
    f.add(40);
    // Counter stays at the window; the divisor stays 3.
    assert_eq!(f.average, 26); // 20 + (40 - 20) / 3, rounded toward zero
    assert_eq!(f.counter, 3);
}

#[test]
fn window_one_tracks_the_last_sample() {
    let mut f = MovingAverage::new(1);
    f.add(5);
    assert_eq!(f.average, 5);
    f.add(-7);
    assert_eq!(f.average, -7);
    f.add(123);
    assert_eq!(f.average, 123);
    assert_eq!(f.counter, 1);
}

#[test]
fn truncation_rounds_toward_zero_for_negative_steps() {
    let mut f = MovingAverage::new(2);
    f.add(0);
    f.add(-5);
    // 0 + (-5 - 0) / 2 = -2 (toward zero), not -3.
    assert_eq!(f.average, -2);
}
