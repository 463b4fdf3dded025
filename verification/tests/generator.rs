use pgsql_bench::mixture::{generate_operations, resolve, Mixture, WEIGHT_SCALE};
use pgsql_bench::rng::FALLBACK_SEED;
use pgsql_bench::{BenchmarkError, OpKind, SeededRng};

fn count_kind(ops: &[OpKind], k: OpKind) -> usize {
    let mut n = 0;
    for op in ops {
        if *op == k {
            n += 1;
        }
    }
    n
}

#[test]
fn seeded_rng_replaces_zero_seed() {
    assert_eq!(SeededRng::new(0).state, FALLBACK_SEED);
    assert_eq!(SeededRng::new(42).state, 42);
}

#[test]
fn seeded_rng_draws_below_bound() {
    let mut rng = SeededRng::new(12345);
    for _ in 0..1000 {
        let v = rng.next_below(7);
        assert!(v < 7);
    }
}

#[test]
fn generation_is_deterministic() {
    let m = Mixture::mixed_read_write();
    let mut rng_a = SeededRng::new(2024);
    let mut rng_b = SeededRng::new(2024);
    let a = generate_operations(&m, &mut rng_a, 5000);
    let b = generate_operations(&m, &mut rng_b, 5000);
    assert_eq!(a, b);
    assert_eq!(rng_a.state, rng_b.state);
    let mut rng_c = SeededRng::new(2025);
    let c = generate_operations(&m, &mut rng_c, 5000);
    assert_ne!(a, c);
}

#[test]
fn mixed_frequencies_converge() {
    // every category of the 80/20 mixture carries weight one fifth; over
    // 100,000 seeded draws each must land within two percent of it
    let m = Mixture::mixed_read_write();
    let mut rng = SeededRng::new(1);
    let ops = generate_operations(&m, &mut rng, 100_000);
    for k in [
        OpKind::InsertBlock,
        OpKind::InsertTransaction,
        OpKind::InsertTransfer,
        OpKind::InsertPool,
        OpKind::ReadRandomRow,
    ] {
        let n = count_kind(&ops, k);
        assert!((18_000..=22_000).contains(&n), "category {:?} hit {} times", k, n);
    }
}

#[test]
fn pure_write_categories_near_uniform() {
    // 4,000 seeded steps over four equally likely write categories: each
    // close to 1,000, within 50
    let m = Mixture::pure_write();
    let mut rng = SeededRng::new(42);
    let ops = generate_operations(&m, &mut rng, 4000);
    for k in [
        OpKind::InsertBlock,
        OpKind::InsertTransaction,
        OpKind::InsertTransfer,
        OpKind::InsertPool,
    ] {
        let n = count_kind(&ops, k);
        assert!((950..=1050).contains(&n), "category {:?} hit {} times", k, n);
    }
    assert_eq!(count_kind(&ops, OpKind::ReadRandomRow), 0);
}

#[test]
fn resolve_honors_cumulative_boundaries() {
    let m = Mixture::pure_write();
    assert_eq!(resolve(&m, 0), OpKind::InsertBlock);
    assert_eq!(resolve(&m, 249_999), OpKind::InsertBlock);
    assert_eq!(resolve(&m, 250_000), OpKind::InsertTransaction);
    assert_eq!(resolve(&m, 499_999), OpKind::InsertTransaction);
    assert_eq!(resolve(&m, 500_000), OpKind::InsertTransfer);
    assert_eq!(resolve(&m, 750_000), OpKind::InsertPool);
    assert_eq!(resolve(&m, WEIGHT_SCALE - 1), OpKind::InsertPool);
}

#[test]
fn mixture_rejects_weights_not_summing_to_one() {
    let bad = vec![(OpKind::InsertBlock, 500_000u64), (OpKind::ReadRandomRow, 400_000u64)];
    let r = Mixture::new(bad);
    assert!(matches!(r, Err(BenchmarkError::Config(_))));

    let over = vec![(OpKind::InsertBlock, 900_000u64), (OpKind::ReadRandomRow, 200_000u64)];
    assert!(matches!(Mixture::new(over), Err(BenchmarkError::Config(_))));

    let none: Vec<(OpKind, u64)> = Vec::new();
    assert!(matches!(Mixture::new(none), Err(BenchmarkError::Config(_))));

    let good = vec![(OpKind::InsertBlock, 600_000u64), (OpKind::ReadRandomRow, 400_000u64)];
    let m = Mixture::new(good).unwrap();
    assert_eq!(m.entries.len(), 2);
    assert_eq!(resolve(&m, 599_999), OpKind::InsertBlock);
    assert_eq!(resolve(&m, 600_000), OpKind::ReadRandomRow);
}
