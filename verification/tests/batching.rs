use pgsql_bench::batching::{batch_bounds, effective_batch_size};
use pgsql_bench::BatchStrategy;

#[test]
fn batches_of_ten_by_three() {
    // ceil(10 / 3) = 4 batches of sizes [3, 3, 3, 1]
    let b = batch_bounds(10, 3);
    let pairs: Vec<(usize, usize)> = b.iter().map(|x| (x.start, x.end)).collect();
    assert_eq!(pairs, vec![(0, 3), (3, 6), (6, 9), (9, 10)]);
    let total: usize = b.iter().map(|x| x.end - x.start).sum();
    assert_eq!(total, 10);
    assert!(b.iter().all(|x| x.end > x.start && x.end - x.start <= 3));
}

#[test]
fn batches_of_exact_multiple() {
    let b = batch_bounds(9, 3);
    let pairs: Vec<(usize, usize)> = b.iter().map(|x| (x.start, x.end)).collect();
    assert_eq!(pairs, vec![(0, 3), (3, 6), (6, 9)]);
}

#[test]
fn empty_collection_has_no_batches() {
    assert_eq!(batch_bounds(0, 1000).len(), 0);
}

#[test]
fn oversized_batch_covers_everything_at_once() {
    let b = batch_bounds(5, 100);
    assert_eq!(b.len(), 1);
    assert_eq!((b[0].start, b[0].end), (0, 5));
}

#[test]
fn fixed_strategy_keeps_its_size() {
    assert_eq!(effective_batch_size(BatchStrategy::FixedSize(1000), 350), 1000);
    assert_eq!(effective_batch_size(BatchStrategy::FixedSize(1), 0), 1);
}

#[test]
fn proportional_strategy_splits_and_clamps() {
    // 350 rows into 100 batches: 3 rows each; tiny collections clamp to 1
    assert_eq!(effective_batch_size(BatchStrategy::Proportional(100), 350), 3);
    assert_eq!(effective_batch_size(BatchStrategy::Proportional(100), 50), 1);
    assert_eq!(effective_batch_size(BatchStrategy::Proportional(100), 0), 1);
    assert_eq!(effective_batch_size(BatchStrategy::Proportional(100), 10_000), 100);
}
