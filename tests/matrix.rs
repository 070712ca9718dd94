use forkbench::matrix::{build_test_matrix, insert_case, TestCase};

/// Sample points of a logarithmic axis up to `max`, as the benchmark takes
/// them: truncate the running value, then scale it by `max ** (1 / samples)`.
fn log_axis(max: u64, samples: u64) -> Vec<u64> {
    let scale = (max as f64).powf(1.0 / samples as f64);
    let mut points = Vec::new();
    let mut v = 1.0f64;
    while (v as u64) < max {
        points.push(v as u64);
        v *= scale;
    }
    points
}

fn is_strictly_ascending(cases: &[TestCase]) -> bool {
    cases.windows(2).all(|w| w[0] < w[1])
}

#[test]
fn small_matrix_is_fully_enumerated() {
    let threads = log_axis(4, 2);
    let workloads = log_axis(100, 2);
    let cases = build_test_matrix(&threads, 4, &workloads, 100);
    assert_eq!(cases, vec![(1, 1), (1, 10), (2, 1), (2, 10)]);
}

#[test]
fn default_matrix_is_ascending_and_in_range() {
    let threads = log_axis(192, 32);
    let workloads = log_axis(1_000_000, 100);
    let cases = build_test_matrix(&threads, 192, &workloads, 1_000_000);
    assert!(is_strictly_ascending(&cases));
    assert!(cases.iter().all(|&(t, w)| 1 <= t && t < 192 && 1 <= w && w < 1_000_000));
    assert!(cases.contains(&(1, 1)));
    // low-end points repeat on the thread axis and are merged
    assert!(threads.len() > 1 && threads[0] == threads[1]);
    let mut distinct_t = threads.clone();
    distinct_t.dedup();
    let mut distinct_w = workloads.clone();
    distinct_w.dedup();
    assert_eq!(cases.len(), distinct_t.len() * distinct_w.len());
}

#[test]
fn matrix_merges_repeats_and_sorts() {
    let cases = build_test_matrix(&vec![2, 1, 1, 2], 10, &vec![3, 1, 3], 10);
    assert_eq!(cases, vec![(1, 1), (1, 3), (2, 1), (2, 3)]);
}

#[test]
fn matrix_keeps_only_points_in_range() {
    let cases = build_test_matrix(&vec![0, 1, 5, 4], 5, &vec![7, 6, 0], 7);
    assert_eq!(cases, vec![(1, 6), (4, 6)]);
}

#[test]
fn matrix_of_empty_axis_is_empty() {
    let cases = build_test_matrix(&vec![], 5, &vec![1, 2], 7);
    assert!(cases.is_empty());
}

#[test]
fn insert_case_reports_new_and_repeated() {
    let mut cases: Vec<TestCase> = Vec::new();
    assert!(insert_case(&mut cases, (2, 5)));
    assert!(insert_case(&mut cases, (1, 9)));
    assert!(insert_case(&mut cases, (2, 1)));
    assert!(!insert_case(&mut cases, (1, 9)));
    assert_eq!(cases, vec![(1, 9), (2, 1), (2, 5)]);
}
