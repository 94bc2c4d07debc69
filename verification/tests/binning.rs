use hmc::histogram::{clamp_bin, count_bins, max_count};
use hmc::requests::coalesce_requests;
use hmc::samples::coordinates;
use hmc::window::{sample_window, window_bounds};

#[test]
fn clamp_sends_outliers_to_edge_bins() {
    assert_eq!(clamp_bin(-3, 5), 0);
    assert_eq!(clamp_bin(0, 5), 0);
    assert_eq!(clamp_bin(3, 5), 3);
    assert_eq!(clamp_bin(4, 5), 4);
    assert_eq!(clamp_bin(5, 5), 4);
    assert_eq!(clamp_bin(isize::MAX, 5), 4);
    assert_eq!(clamp_bin(isize::MIN, 1), 0);
}

#[test]
fn counts_per_bin() {
    let raw = [-3isize, 0, 1, 5, 9, 2];
    let counts = count_bins(&raw, 3);
    assert_eq!(counts, vec![2, 1, 3]);
    assert_eq!(counts.iter().sum::<usize>(), raw.len());
}

#[test]
fn empty_samples_give_empty_bins() {
    let counts = count_bins(&[], 4);
    assert_eq!(counts, vec![0, 0, 0, 0]);
}

#[test]
fn every_sample_counted_once() {
    let raw: Vec<isize> = (-40..140).map(|i| (i * 7) % 53).collect();
    let counts = count_bins(&raw, 50);
    assert_eq!(counts.len(), 50);
    assert_eq!(counts.iter().sum::<usize>(), raw.len());
}

#[test]
fn max_count_of_bins() {
    assert_eq!(max_count(&[]), 1);
    assert_eq!(max_count(&[0, 0]), 0);
    assert_eq!(max_count(&[2, 1, 3]), 3);
    assert_eq!(max_count(&[7, 1, 3]), 7);
}

#[test]
fn window_in_range() {
    assert_eq!(window_bounds(10, 2, 8), (2, 8));
    assert_eq!(window_bounds(100, 10, 100), (10, 100));
}

#[test]
fn window_misuse_never_panics() {
    assert_eq!(window_bounds(10, 8, 2), (8, 8));
    assert_eq!(window_bounds(10, 20, 30), (10, 10));
    assert_eq!(window_bounds(10, 3, 30), (3, 10));
    assert_eq!(window_bounds(0, 3, 5), (0, 0));
    let chain: Vec<u32> = (0..10).collect();
    assert_eq!(sample_window(&chain, 2, 5), &[2, 3, 4]);
    assert!(sample_window(&chain, 7, 3).is_empty());
    assert_eq!(sample_window(&chain, 8, 99), &[8, 9]);
    let empty: Vec<u32> = Vec::new();
    assert!(sample_window(&empty, 1, 2).is_empty());
}

#[test]
fn latest_request_wins() {
    assert_eq!(coalesce_requests(1, vec![]), 1);
    assert_eq!(coalesce_requests(1, vec![2, 3]), 3);
    assert_eq!(coalesce_requests("a", vec!["b"]), "b");
}

#[test]
fn coordinates_of_samples() {
    let samples = vec![vec![1.0, 2.0], vec![3.0, 4.0], vec![5.0, 6.0]];
    assert_eq!(coordinates(&samples, 0), vec![1.0, 3.0, 5.0]);
    assert_eq!(coordinates(&samples, 1), vec![2.0, 4.0, 6.0]);
    let none: Vec<Vec<f64>> = Vec::new();
    assert!(coordinates(&none, 3).is_empty());
}
