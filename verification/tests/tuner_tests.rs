//! Concurrency-tuner behaviour on concrete candidate sets.

use drive_sync::tuner::{
    average_size, calculate_download_concurrency, calculate_optimal_concurrency, sum_sizes,
};

#[test]
fn ten_small_files_high_ceiling_gives_top_tier() {
    // Ten files averaging 500 KB with a ceiling of 1000: effective
    // concurrency is the small-file upload tier, 100.
    let sizes: Vec<u64> = vec![500_000; 10];
    assert_eq!(calculate_optimal_concurrency(&sizes, 1000), 100);
}

#[test]
fn upload_tier_boundaries() {
    assert_eq!(calculate_optimal_concurrency(&vec![999_999], 1000), 100);
    assert_eq!(calculate_optimal_concurrency(&vec![1_000_000], 1000), 50);
    assert_eq!(calculate_optimal_concurrency(&vec![9_999_999], 1000), 50);
    assert_eq!(calculate_optimal_concurrency(&vec![10_000_000], 1000), 20);
    assert_eq!(calculate_optimal_concurrency(&vec![99_999_999], 1000), 20);
    assert_eq!(calculate_optimal_concurrency(&vec![100_000_000], 1000), 10);
}

#[test]
fn download_tier_boundaries() {
    assert_eq!(calculate_download_concurrency(&vec![500_000], 1000), 50);
    assert_eq!(calculate_download_concurrency(&vec![5_000_000], 1000), 30);
    assert_eq!(calculate_download_concurrency(&vec![50_000_000], 1000), 10);
    assert_eq!(calculate_download_concurrency(&vec![200_000_000], 1000), 5);
}

#[test]
fn ceiling_caps_the_tier() {
    let sizes: Vec<u64> = vec![500_000; 4];
    assert_eq!(calculate_optimal_concurrency(&sizes, 7), 7);
    assert_eq!(calculate_download_concurrency(&sizes, 7), 7);
}

#[test]
fn result_is_floored_at_one() {
    let sizes: Vec<u64> = vec![500_000; 4];
    assert_eq!(calculate_optimal_concurrency(&sizes, 0), 1);
    assert_eq!(calculate_download_concurrency(&sizes, 0), 1);
}

#[test]
fn empty_set_counts_as_small_average() {
    let sizes: Vec<u64> = vec![];
    assert_eq!(average_size(&sizes), 0);
    assert_eq!(calculate_optimal_concurrency(&sizes, 1000), 100);
    assert_eq!(calculate_download_concurrency(&sizes, 1000), 50);
}

#[test]
fn sums_and_averages_are_exact() {
    let sizes: Vec<u64> = vec![100, 200, 301];
    assert_eq!(sum_sizes(&sizes), 601);
    assert_eq!(average_size(&sizes), 200);
}

#[test]
fn larger_average_never_raises_concurrency() {
    // Monotonicity across the tiers, sampled at one ceiling.
    let averages: [u64; 4] = [500_000, 5_000_000, 50_000_000, 500_000_000];
    let mut last_up = usize::MAX;
    let mut last_down = usize::MAX;
    for avg in averages {
        let up = calculate_optimal_concurrency(&vec![avg], 1000);
        let down = calculate_download_concurrency(&vec![avg], 1000);
        assert!(up <= last_up);
        assert!(down <= last_down);
        last_up = up;
        last_down = down;
    }
}
