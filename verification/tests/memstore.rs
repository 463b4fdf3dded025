use pgsql_bench::{Block, MemStore, Pool, Record, Store, TableKind, Timestamp};

fn block_at(n: i32, ts: Timestamp) -> Block {
    Block {
        block_number: n,
        block_hash: format!("hash-{}", n),
        parent_hash: format!("hash-{}", n - 1),
        block_timestamp: ts,
        created_at: Timestamp::Epoch(0),
        updated_at: Timestamp::Epoch(0),
    }
}

fn pool_at(n: i32) -> Pool {
    Pool {
        deployer: "0xdeployer".to_string(),
        address: format!("0xpool-{}", n),
        quote_token: "0xquote".to_string(),
        token: "0xt0ken".to_string(),
        init_block: n,
        created_at: n as i64,
    }
}

#[test]
fn insert_appends_to_the_matching_table() {
    let mut s = MemStore::new(3, 1_000_000);
    s.insert_row(&Record::Block(block_at(1, Timestamp::Epoch(10)))).unwrap();
    s.insert_row(&Record::Pool(pool_at(2))).unwrap();
    s.insert_row(&Record::Block(block_at(3, Timestamp::Epoch(30)))).unwrap();
    assert_eq!(s.table_len(TableKind::Blocks), 2);
    assert_eq!(s.table_len(TableKind::Pools), 1);
    assert_eq!(s.table_len(TableKind::Transactions), 0);
    assert_eq!(s.table_len(TableKind::Transfers), 0);
    assert_eq!(s.row_at(TableKind::Blocks, 0), Record::Block(block_at(1, Timestamp::Epoch(10))));
    assert_eq!(s.row_at(TableKind::Blocks, 1), Record::Block(block_at(3, Timestamp::Epoch(30))));
}

#[test]
fn copy_in_commits_a_whole_batch_in_order() {
    let mut s = MemStore::new(3, 1_000_000);
    let rows: Vec<Record> =
        (0..5).map(|n| Record::Block(block_at(n, Timestamp::Epoch(n as i64)))).collect();
    s.copy_in(TableKind::Blocks, &rows).unwrap();
    assert_eq!(s.table_len(TableKind::Blocks), 5);
    for n in 0..5 {
        assert_eq!(
            s.row_at(TableKind::Blocks, n as usize),
            Record::Block(block_at(n, Timestamp::Epoch(n as i64)))
        );
    }
}

#[test]
fn random_row_is_none_exactly_on_an_empty_table() {
    let mut s = MemStore::new(9, 1_000_000);
    assert_eq!(s.query_random_row(TableKind::Blocks).unwrap(), None);
    s.insert_row(&Record::Block(block_at(1, Timestamp::Epoch(10)))).unwrap();
    s.insert_row(&Record::Block(block_at(2, Timestamp::Epoch(20)))).unwrap();
    for _ in 0..20 {
        match s.query_random_row(TableKind::Blocks).unwrap() {
            Some(Record::Block(b)) => assert!(b.block_number == 1 || b.block_number == 2),
            other => panic!("expected a block, got {:?}", other),
        }
    }
}

#[test]
fn window_scan_keeps_recent_parsed_instants_only() {
    // the store's notion of now is the epoch second 1,000,000; a one-hour
    // window reaches back to 996,400
    let mut s = MemStore::new(3, 1_000_000);
    s.insert_row(&Record::Block(block_at(1, Timestamp::Epoch(999_000)))).unwrap();
    s.insert_row(&Record::Block(block_at(2, Timestamp::Epoch(10)))).unwrap();
    s.insert_row(&Record::Block(block_at(3, Timestamp::Text("2024-01-01".to_string()))))
        .unwrap();
    s.insert_row(&Record::Block(block_at(4, Timestamp::Epoch(996_400)))).unwrap();
    let rows = s.query_window(TableKind::Blocks, 3_600).unwrap();
    let numbers: Vec<i32> = rows
        .iter()
        .map(|r| match r {
            Record::Block(b) => b.block_number,
            other => panic!("expected a block, got {:?}", other),
        })
        .collect();
    assert_eq!(numbers, vec![1, 4]);
    // the scan changed nothing
    assert_eq!(s.table_len(TableKind::Blocks), 4);
}

#[test]
fn reset_truncates_every_table() {
    let mut s = MemStore::new(3, 1_000_000);
    s.insert_row(&Record::Block(block_at(1, Timestamp::Epoch(10)))).unwrap();
    s.insert_row(&Record::Pool(pool_at(2))).unwrap();
    s.reset().unwrap();
    assert_eq!(s.table_len(TableKind::Blocks), 0);
    assert_eq!(s.table_len(TableKind::Transactions), 0);
    assert_eq!(s.table_len(TableKind::Transfers), 0);
    assert_eq!(s.table_len(TableKind::Pools), 0);
}
