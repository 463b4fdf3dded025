use pgsql_bench::bulk::bulk_load;
use pgsql_bench::prober::probe_ranges;
use pgsql_bench::report::run_all_patterns;
use pgsql_bench::workload::run_workload;
use pgsql_bench::{
    BatchStrategy, BenchmarkConfig, BenchmarkError, Block, Dataset, MemStore, Mixture, Pool,
    SeededRng, Store, TableKind, Timestamp, Transaction, Transfer,
};

fn block(n: i32) -> Block {
    Block {
        block_number: n,
        block_hash: format!("hash-{}", n),
        parent_hash: format!("hash-{}", n - 1),
        block_timestamp: Timestamp::Epoch(1_700_000_000 + n as i64),
        created_at: Timestamp::Epoch(1_700_000_000),
        updated_at: Timestamp::Epoch(1_700_000_001),
    }
}

fn transaction(n: i32) -> Transaction {
    Transaction {
        block: n,
        index: n % 3,
        timestamp: Timestamp::Epoch(1_700_000_000 + n as i64),
        hash: format!("tx-{}", n),
        from: "0xfeed".to_string(),
        to: "0xbeef".to_string(),
        value: "99999999999999999999999999".to_string(),
    }
}

fn transfer(n: i32) -> Transfer {
    Transfer {
        tx_hash: format!("tx-{}", n),
        block_number: n,
        token: "0xt0ken".to_string(),
        from: "0xfeed".to_string(),
        to: "0xbeef".to_string(),
        amount: "1000000000000000000".to_string(),
    }
}

fn pool(n: i32) -> Pool {
    Pool {
        deployer: "0xdeployer".to_string(),
        address: format!("0xpool-{}", n),
        quote_token: "0xquote".to_string(),
        token: "0xt0ken".to_string(),
        init_block: n,
        created_at: 1_700_000_000 + n as i64,
    }
}

fn tiny_dataset(rows: i32) -> Dataset {
    Dataset {
        blocks: (0..rows).map(block).collect(),
        transactions: (0..rows).map(transaction).collect(),
        transfers: (0..rows).map(transfer).collect(),
        pools: (0..rows).map(pool).collect(),
    }
}

#[test]
fn bulk_load_four_tiny_fixtures() {
    // four fixtures of 10 rows, batch size 3: four batches per entity of
    // sizes [3, 3, 3, 1], 40 records in all, rate = 40 / elapsed
    let data = tiny_dataset(10);
    let mut store = MemStore::new(1, 1_700_000_500);
    let report = bulk_load(&mut store, &data, BatchStrategy::FixedSize(3)).unwrap();
    assert_eq!(report.records, 40);
    assert_eq!(report.batches, 16);
    assert_eq!(report.rate.ops, 40);
    assert_eq!(report.rate.elapsed_micros, report.elapsed_micros);
    for k in
        [TableKind::Blocks, TableKind::Transactions, TableKind::Transfers, TableKind::Pools]
    {
        assert_eq!(store.table_len(k), 10);
    }
    // insertion order is kept
    assert_eq!(store.row_at(TableKind::Blocks, 0), pgsql_bench::Record::Block(block(0)));
    assert_eq!(store.row_at(TableKind::Blocks, 9), pgsql_bench::Record::Block(block(9)));
}

#[test]
fn bulk_load_of_nothing_is_not_an_error() {
    let data = Dataset::empty();
    let mut store = MemStore::new(1, 0);
    let report = bulk_load(&mut store, &data, BatchStrategy::Proportional(100)).unwrap();
    assert_eq!(report.records, 0);
    assert_eq!(report.batches, 0);
    assert_eq!(report.rate.ops, 0);
}

#[test]
fn workload_counts_every_step_even_on_an_empty_provider() {
    // every sampled collection is empty: all operations are counted no-ops,
    // never an error, and the denominator still counts every step
    let data = Dataset::empty();
    let mut store = MemStore::new(1, 0);
    let m = Mixture::pure_write();
    let mut rng = SeededRng::new(11);
    let report = run_workload(&mut store, &data, &m, &mut rng, 50, 1).unwrap();
    assert_eq!(report.steps, 50);
    assert_eq!(report.ops_attempted, 50);
    assert_eq!(report.skipped, 50);
    assert_eq!(report.writes, 0);
    assert_eq!(report.reads, 0);
    assert_eq!(report.rate.ops, 50);
}

#[test]
fn single_insert_pattern_with_fan_out() {
    let data = tiny_dataset(10);
    let mut store = MemStore::new(1, 0);
    let m = Mixture::pure_write();
    let mut rng = SeededRng::new(11);
    let report = run_workload(&mut store, &data, &m, &mut rng, 25, 4).unwrap();
    assert_eq!(report.steps, 25);
    assert_eq!(report.ops_attempted, 100);
    assert_eq!(report.writes, 100);
    assert_eq!(report.reads + report.skipped, 0);
    // every attempted write landed in the store
    let total: usize =
        [TableKind::Blocks, TableKind::Transactions, TableKind::Transfers, TableKind::Pools]
            .iter()
            .map(|k| store.table_len(*k))
            .sum();
    assert_eq!(total, 100);
}

#[test]
fn mixed_pattern_counts_split_between_reads_and_writes() {
    let data = tiny_dataset(10);
    let mut store = MemStore::new(1, 0);
    let m = Mixture::mixed_read_write();
    let mut rng = SeededRng::new(1234);
    let report = run_workload(&mut store, &data, &m, &mut rng, 500, 1).unwrap();
    assert_eq!(report.steps, 500);
    assert_eq!(report.ops_attempted, 500);
    assert_eq!(report.writes + report.reads + report.skipped, 500);
    assert!(report.writes > 0 && report.reads > 0);
    assert_eq!(report.skipped, 0);
    let total: usize =
        [TableKind::Blocks, TableKind::Transactions, TableKind::Transfers, TableKind::Pools]
            .iter()
            .map(|k| store.table_len(*k))
            .sum();
    assert_eq!(total, report.writes);
}

#[test]
fn probe_output_matches_window_count_and_order() {
    let mut store = MemStore::new(1, 1_700_000_500);
    for n in 0..10 {
        store.insert_row(&pgsql_bench::Record::Block(block(n))).unwrap();
    }
    let windows: Vec<u64> = vec![3_600, 86_400, 604_800];
    let latencies = probe_ranges(&mut store, &windows).unwrap();
    assert_eq!(latencies.len(), 3);
    for (i, (w, _lat)) in latencies.iter().enumerate() {
        assert_eq!(*w, windows[i]);
    }
}

#[test]
fn all_patterns_run_in_sequence() {
    let data = tiny_dataset(10);
    let mut store = MemStore::new(1, 1_700_000_500);
    let config = BenchmarkConfig {
        bulk_strategy: BatchStrategy::FixedSize(3),
        single_steps: 20,
        single_fan_out: 4,
        mixed_steps: 50,
        mixed_fan_out: 1,
        windows: vec![60, 3_600],
        seed: 9,
    };
    let summary = run_all_patterns(&mut store, &data, &config).unwrap();

    let bulk = summary.bulk.unwrap();
    assert_eq!(bulk.records, 40);
    assert_eq!(bulk.batches, 16);

    let single = summary.single.unwrap();
    assert_eq!(single.steps, 20);
    assert_eq!(single.ops_attempted, 80);

    let mixed = summary.mixed.unwrap();
    assert_eq!(mixed.steps, 50);
    assert_eq!(mixed.ops_attempted, 50);

    let range = summary.range.unwrap();
    assert_eq!(range.len(), 2);
    assert_eq!(range[0].0, 60);
    assert_eq!(range[1].0, 3_600);
}

#[test]
fn malformed_configuration_is_rejected_up_front() {
    let data = tiny_dataset(2);
    let mut store = MemStore::new(1, 0);
    let config = BenchmarkConfig {
        bulk_strategy: BatchStrategy::FixedSize(0),
        single_steps: 10,
        single_fan_out: 1,
        mixed_steps: 10,
        mixed_fan_out: 1,
        windows: vec![60],
        seed: 1,
    };
    let r = run_all_patterns(&mut store, &data, &config);
    assert!(matches!(r, Err(BenchmarkError::Config(_))));

    let config_zero_fan_out = BenchmarkConfig {
        bulk_strategy: BatchStrategy::FixedSize(10),
        single_fan_out: 0,
        ..config
    };
    let r2 = run_all_patterns(&mut store, &data, &config_zero_fan_out);
    assert!(matches!(r2, Err(BenchmarkError::Config(_))));
}

#[test]
fn standard_configuration_carries_the_documented_defaults() {
    let c = BenchmarkConfig::standard(77);
    assert!(matches!(c.bulk_strategy, BatchStrategy::FixedSize(1000)));
    assert_eq!((c.single_steps, c.single_fan_out), (2500, 4));
    assert_eq!((c.mixed_steps, c.mixed_fan_out), (50_000, 1));
    assert_eq!(c.windows, vec![3_600, 86_400, 604_800]);
    assert_eq!(c.seed, 77);
    assert!(c.validate());
}

#[test]
fn error_kinds_carry_their_messages() {
    let e = BenchmarkError::Transport("connection reset".to_string());
    assert_eq!(e.message().as_str(), "connection reset");
    let d = BenchmarkError::DataLoad("fixture unreadable".to_string());
    assert_eq!(d.message().as_str(), "fixture unreadable");
    assert!(matches!(e.clone(), BenchmarkError::Transport(_)));
}
