use pgsql_bench::bulk::bulk_load;
use pgsql_bench::workload::run_workload;
use pgsql_bench::{
    BatchStrategy, BenchmarkError, Block, Dataset, Mixture, Pool, Record, SeededRng, Store,
    TableKind, Timestamp, Transaction, Transfer,
};

/// A store that accepts a fixed number of operations and then fails every
/// one, for exercising the fail-fast paths.
struct FlakyStore {
    ok_budget: usize,
}

impl FlakyStore {
    fn tick(&mut self) -> Result<(), BenchmarkError> {
        if self.ok_budget == 0 {
            Err(BenchmarkError::Transport("injected failure".to_string()))
        } else {
            self.ok_budget -= 1;
            Ok(())
        }
    }
}

impl Store for FlakyStore {
    fn copy_in(&mut self, _k: TableKind, _rows: &Vec<Record>) -> Result<(), BenchmarkError> {
        self.tick()
    }

    fn insert_row(&mut self, _row: &Record) -> Result<(), BenchmarkError> {
        self.tick()
    }

    fn query_random_row(&mut self, _k: TableKind) -> Result<Option<Record>, BenchmarkError> {
        self.tick()?;
        Ok(None)
    }

    fn query_window(
        &mut self,
        _k: TableKind,
        _window_secs: u64,
    ) -> Result<Vec<Record>, BenchmarkError> {
        self.tick()?;
        Ok(Vec::new())
    }

    fn reset(&mut self) -> Result<(), BenchmarkError> {
        self.tick()
    }
}

fn tiny_dataset(rows: i32) -> Dataset {
    Dataset {
        blocks: (0..rows)
            .map(|n| Block {
                block_number: n,
                block_hash: format!("hash-{}", n),
                parent_hash: format!("hash-{}", n - 1),
                block_timestamp: Timestamp::Epoch(n as i64),
                created_at: Timestamp::Epoch(0),
                updated_at: Timestamp::Epoch(0),
            })
            .collect(),
        transactions: (0..rows)
            .map(|n| Transaction {
                block: n,
                index: 0,
                timestamp: Timestamp::Epoch(n as i64),
                hash: format!("tx-{}", n),
                from: "0xfeed".to_string(),
                to: "0xbeef".to_string(),
                value: "1".to_string(),
            })
            .collect(),
        transfers: (0..rows)
            .map(|n| Transfer {
                tx_hash: format!("tx-{}", n),
                block_number: n,
                token: "0xt0ken".to_string(),
                from: "0xfeed".to_string(),
                to: "0xbeef".to_string(),
                amount: "1".to_string(),
            })
            .collect(),
        pools: (0..rows)
            .map(|n| Pool {
                deployer: "0xdeployer".to_string(),
                address: format!("0xpool-{}", n),
                quote_token: "0xquote".to_string(),
                token: "0xt0ken".to_string(),
                init_block: n,
                created_at: n as i64,
            })
            .collect(),
    }
}

#[test]
fn bulk_load_aborts_on_first_transport_failure() {
    // 10 rows per entity at batch size 3: four batches per entity; a budget
    // of five lets the whole first entity (4 batches) plus one more batch
    // commit, then the sixth invocation fails
    let data = tiny_dataset(10);
    let mut store = FlakyStore { ok_budget: 5 };
    let failure = bulk_load(&mut store, &data, BatchStrategy::FixedSize(3)).unwrap_err();
    assert_eq!(failure.batches_completed, 5);
    assert!(matches!(failure.error, BenchmarkError::Transport(_)));
}

#[test]
fn bulk_load_reports_zero_batches_when_nothing_committed() {
    let data = tiny_dataset(10);
    let mut store = FlakyStore { ok_budget: 0 };
    let failure = bulk_load(&mut store, &data, BatchStrategy::FixedSize(3)).unwrap_err();
    assert_eq!(failure.batches_completed, 0);
}

#[test]
fn workload_aborts_on_first_transport_failure() {
    let data = tiny_dataset(5);
    let m = Mixture::pure_write();
    let mut rng = SeededRng::new(3);
    let mut store = FlakyStore { ok_budget: 7 };
    let err = run_workload(&mut store, &data, &m, &mut rng, 50, 1).unwrap_err();
    assert!(matches!(err, BenchmarkError::Transport(_)));
}
