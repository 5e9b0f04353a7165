use ground_motion_lib::stats::{median_pair, median_positions};

fn median(values: &Vec<f64>) -> f64 {
    let (lo, hi) = median_pair(values);
    (lo + hi) / 2.0
}

#[test]
fn median_positions_odd() {
    assert_eq!(median_positions(1), (0, 0));
    assert_eq!(median_positions(5), (2, 2));
    assert_eq!(median_positions(17), (8, 8));
}

#[test]
fn median_positions_even() {
    assert_eq!(median_positions(2), (0, 1));
    assert_eq!(median_positions(4), (1, 2));
}

#[test]
fn median_of_odd_length_is_middle() {
    let values = vec![1.0, 2.0, 3.0, 4.0, 5.0];
    assert_eq!(median_pair(&values), (3.0, 3.0));
    assert_eq!(median(&values), 3.0);
}

#[test]
fn median_of_even_length_averages_middle_pair() {
    let values = vec![1.0, 2.0, 3.0, 4.0];
    assert_eq!(median_pair(&values), (2.0, 3.0));
    assert_eq!(median(&values), 2.5);
}

#[test]
fn median_of_single_value() {
    let values = vec![7u64];
    assert_eq!(median_pair(&values), (7, 7));
}

#[test]
fn median_positions_largest_length() {
    assert_eq!(median_positions(usize::MAX), (usize::MAX / 2, usize::MAX / 2));
    assert_eq!(median_positions(usize::MAX - 1), (usize::MAX / 2 - 1, usize::MAX / 2));
}
