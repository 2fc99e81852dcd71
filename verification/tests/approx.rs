use gas_monitor::approx::compute_approximation;
use gas_monitor::approx::TrendPoint;

#[test]
fn short_inputs_yield_empty_trend() {
    let empty: Vec<i64> = vec![];
    assert!(compute_approximation(&empty).is_empty());
    assert!(compute_approximation(&vec![7]).is_empty());
    assert!(compute_approximation(&vec![7, 9]).is_empty());
}

#[test]
fn three_values_yield_one_point() {
    // d1 = (3000 - 0) / 2 = 1500, d2 = 3000 - 2*1000 + 0 = 1000,
    // y = 1000 + 1500 + 500 = 3000, at position x = 2.
    let r = compute_approximation(&vec![0, 1000, 3000]);
    assert_eq!(r, vec![TrendPoint { x: 2, y: 3000 }]);
}

#[test]
fn odd_differences_stay_exact() {
    // d1 = 2 and d2 = 2 in real arithmetic; the fixed-point result must
    // match the real-valued formula: y = 1 + 2 + 1 = 4.
    let r = compute_approximation(&vec![0, 1, 4]);
    assert_eq!(r, vec![TrendPoint { x: 2, y: 4 }]);
}

#[test]
fn linear_sequence_smooths_to_itself() {
    let values: Vec<i64> = vec![1000, 2000, 3000, 4000, 5000];
    let r = compute_approximation(&values);
    assert_eq!(r.len(), 3);
    for p in &r {
        // Each smoothed point lies on the input line at its own position.
        assert_eq!(p.y, values[p.x]);
    }
    assert_eq!(r[0], TrendPoint { x: 2, y: 3000 });
    assert_eq!(r[1], TrendPoint { x: 3, y: 4000 });
    assert_eq!(r[2], TrendPoint { x: 4, y: 5000 });
}

#[test]
fn spike_is_damped_at_its_centre() {
    let values: Vec<i64> = vec![0, 0, 10_000, 0, 0];
    let r = compute_approximation(&values);
    assert_eq!(r.len(), 3);
    // The point centred on the spike (interior index 2, position 3) must
    // differ from the raw spike value.
    assert_eq!(r[1].x, 3);
    assert_ne!(r[1].y, 10_000);
}
