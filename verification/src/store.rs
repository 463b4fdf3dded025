use crate::error::BenchmarkError;
use crate::models::{Record, TableKind, Timestamp};
use crate::rng::SeededRng;
use vstd::prelude::*;

verus! {

/// The store the benchmark drives: four tables of rows, reached through a
/// bulk channel, single-row inserts, random-row fetches, window scans and a
/// reset. Any transport — row-at-a-time statements, a streaming binary
/// copy, an in-memory fake — is an interchangeable implementation; every
/// method may fail with a transport error, and no caller is promised
/// success, only what holds of the tables on each outcome.
pub trait Store {
    /// The rows the table of kind `k` holds, in insertion order. The default
    /// leaves the contents unspecified, so an unverified implementation may
    /// omit it; a verified one overrides it with its real view.
    open spec fn table(&self, k: TableKind) -> Seq<Record> {
        arbitrary()
    }

    /// One bulk-channel invocation: open the channel, stream every row of
    /// the batch, close it. The batch commits atomically: on success the
    /// table grows by exactly the batch, in order; on failure nothing of the
    /// batch remains.
    fn copy_in(&mut self, k: TableKind, rows: &Vec<Record>) -> (r: Result<(), BenchmarkError>)
        requires
            forall|i: int| 0 <= i < rows@.len() ==> (#[trigger] rows@[i]).kind_spec() == k,
        ensures
            r is Ok ==> final (self).table(k) == old(self).table(k) + rows@,
            r is Ok ==> forall|j: TableKind|
                j != k ==> #[trigger] final (self).table(j) == old(self).table(j),
            r is Err ==> forall|j: TableKind|
                #[trigger] final (self).table(j) == old(self).table(j),
    ;

    /// A single-row insert into the row's own table.
    fn insert_row(&mut self, row: &Record) -> (r: Result<(), BenchmarkError>)
        ensures
            r is Ok ==> final (self).table(row.kind_spec()) == old(self).table(
                row.kind_spec(),
            ).push(*row),
            r is Ok ==> forall|j: TableKind|
                j != row.kind_spec() ==> #[trigger] final (self).table(j) == old(self).table(j),
            r is Err ==> forall|j: TableKind|
                #[trigger] final (self).table(j) == old(self).table(j),
    ;

    /// One unordered random-row fetch: some row of the table when it has
    /// any, no row exactly when it is empty. Reading never changes a table.
    fn query_random_row(&mut self, k: TableKind) -> (r: Result<Option<Record>, BenchmarkError>)
        ensures
            forall|j: TableKind| #[trigger] final (self).table(j) == old(self).table(j),
            r matches Ok(row) ==> (row is Some <==> old(self).table(k).len() > 0),
            r matches Ok(row) && row matches Some(rec) ==> old(self).table(k).contains(rec),
    ;

    /// One time-windowed scan: all rows of the table whose timestamp lies
    /// within the last `window_secs` seconds, measured backward from the
    /// store's notion of now. Every returned row comes from the table;
    /// reading never changes a table.
    fn query_window(&mut self, k: TableKind, window_secs: u64) -> (r: Result<
        Vec<Record>,
        BenchmarkError,
    >)
        ensures
            forall|j: TableKind| #[trigger] final (self).table(j) == old(self).table(j),
            r matches Ok(rows) ==> forall|i: int|
                0 <= i < rows@.len() ==> old(self).table(k).contains(#[trigger] rows@[i]),
    ;

    /// Truncate all four tables, so one pattern's data cannot skew the next
    /// pattern's measurements.
    fn reset(&mut self) -> (r: Result<(), BenchmarkError>)
        ensures
            r is Ok ==> forall|j: TableKind|
                #[trigger] final (self).table(j) == Seq::<Record>::empty(),
    ;
}

/// Does a row fall inside the window ending at `cutoff`? A row carrying a
/// parsed instant is compared numerically; one carrying only opaque text, or
/// none at all, falls outside every window (the in-memory store never
/// reinterprets text timestamps).
pub open spec fn row_at_or_after(r: Record, cutoff: int) -> bool {
    match r {
        Record::Block(b) => match b.block_timestamp {
            Timestamp::Epoch(e) => e >= cutoff,
            Timestamp::Text(_) => false,
        },
        Record::Transaction(t) => match t.timestamp {
            Timestamp::Epoch(e) => e >= cutoff,
            Timestamp::Text(_) => false,
        },
        Record::Transfer(_) => false,
        Record::Pool(p) => p.created_at >= cutoff,
    }
}

/// The rows of `s` that fall inside the window ending at `cutoff`, in table
/// order: what one in-memory window scan returns.
pub open spec fn rows_in_window(s: Seq<Record>, cutoff: int) -> Seq<Record>
    decreases s.len(),
{
    if s.len() == 0 {
        Seq::empty()
    } else {
        rows_in_window(s.drop_last(), cutoff) + (if row_at_or_after(s.last(), cutoff) {
            seq![s.last()]
        } else {
            Seq::empty()
        })
    }
}

/// The in-memory store: the fast fake every pattern can run against without
/// a network. Rows live in four vectors; the random-row fetch draws from its
/// own seeded generator, and window scans measure backward from a fixed,
/// settable epoch second, so whole runs stay reproducible.
#[derive(Debug)]
pub struct MemStore {
    blocks: Vec<Record>,
    transactions: Vec<Record>,
    transfers: Vec<Record>,
    pools: Vec<Record>,
    pick: SeededRng,
    now_epoch: i64,
}

impl MemStore {
    pub fn new(seed: u64, now_epoch: i64) -> (r: MemStore)
        ensures
            forall|j: TableKind| #[trigger] r.table(j) == Seq::<Record>::empty(),
    {
        MemStore {
            blocks: Vec::new(),
            transactions: Vec::new(),
            transfers: Vec::new(),
            pools: Vec::new(),
            pick: SeededRng::new(seed),
            now_epoch,
        }
    }

    /// The epoch second this store's window scans measure backward from.
    pub closed spec fn now_epoch_spec(&self) -> int {
        self.now_epoch as int
    }

    /// How many rows the table of kind `k` holds.
    pub fn table_len(&self, k: TableKind) -> (n: usize)
        ensures
            n == self.table(k).len(),
    {
        match k {
            TableKind::Blocks => self.blocks.len(),
            TableKind::Transactions => self.transactions.len(),
            TableKind::Transfers => self.transfers.len(),
            TableKind::Pools => self.pools.len(),
        }
    }

    /// A copy of the row at position `i` of the table of kind `k`.
    pub fn row_at(&self, k: TableKind, i: usize) -> (r: Record)
        requires
            i < self.table(k).len(),
        ensures
            r == self.table(k)[i as int],
    {
        match k {
            TableKind::Blocks => self.blocks[i].clone(),
            TableKind::Transactions => self.transactions[i].clone(),
            TableKind::Transfers => self.transfers[i].clone(),
            TableKind::Pools => self.pools[i].clone(),
        }
    }

    /// Is this row within the last `window_secs` seconds before `now_epoch`?
    fn in_window(&self, row: &Record, window_secs: u64) -> (b: bool)
        ensures
            b == row_at_or_after(*row, self.now_epoch - window_secs),
    {
        let cutoff: i128 = self.now_epoch as i128 - window_secs as i128;
        match row {
            Record::Block(b) => match &b.block_timestamp {
                Timestamp::Epoch(e) => *e as i128 >= cutoff,
                Timestamp::Text(_) => false,
            },
            Record::Transaction(t) => match &t.timestamp {
                Timestamp::Epoch(e) => *e as i128 >= cutoff,
                Timestamp::Text(_) => false,
            },
            Record::Transfer(_) => false,
            Record::Pool(p) => p.created_at as i128 >= cutoff,
        }
    }
}

impl Store for MemStore {
    closed spec fn table(&self, k: TableKind) -> Seq<Record> {
        match k {
            TableKind::Blocks => self.blocks@,
            TableKind::Transactions => self.transactions@,
            TableKind::Transfers => self.transfers@,
            TableKind::Pools => self.pools@,
        }
    }

    fn copy_in(&mut self, k: TableKind, rows: &Vec<Record>) -> (r: Result<(), BenchmarkError>)
        ensures
            r is Ok,
    {
        let n = rows.len();
        let mut i: usize = 0;
        while i < n
            invariant
                n == rows@.len(),
                i <= n,
                self.table(k) == old(self).table(k) + rows@.subrange(0, i as int),
                k != TableKind::Blocks ==> self.blocks@ == old(self).blocks@,
                k != TableKind::Transactions ==> self.transactions@ == old(self).transactions@,
                k != TableKind::Transfers ==> self.transfers@ == old(self).transfers@,
                k != TableKind::Pools ==> self.pools@ == old(self).pools@,
            decreases n - i,
        {
            let row = rows[i].clone();
            match k {
                TableKind::Blocks => self.blocks.push(row),
                TableKind::Transactions => self.transactions.push(row),
                TableKind::Transfers => self.transfers.push(row),
                TableKind::Pools => self.pools.push(row),
            }
            i = i + 1;
            proof {
                assert(old(self).table(k) + rows@.subrange(0, i as int) =~= (old(self).table(k)
                    + rows@.subrange(0, i - 1)).push(rows@[i - 1]));
            }
        }
        proof {
            assert(rows@.subrange(0, n as int) =~= rows@);
        }
        Ok(())
    }

    fn insert_row(&mut self, row: &Record) -> (r: Result<(), BenchmarkError>)
        ensures
            r is Ok,
    {
        let copy = row.clone();
        match &copy {
            Record::Block(_) => self.blocks.push(copy),
            Record::Transaction(_) => self.transactions.push(copy),
            Record::Transfer(_) => self.transfers.push(copy),
            Record::Pool(_) => self.pools.push(copy),
        }
        Ok(())
    }

    fn query_random_row(&mut self, k: TableKind) -> (r: Result<Option<Record>, BenchmarkError>)
        ensures
            r is Ok,
    {
        let n = match k {
            TableKind::Blocks => self.blocks.len(),
            TableKind::Transactions => self.transactions.len(),
            TableKind::Transfers => self.transfers.len(),
            TableKind::Pools => self.pools.len(),
        };
        if n == 0 {
            return Ok(None);
        }
        let idx = self.pick.next_below(n as u64) as usize;
        let rec = match k {
            TableKind::Blocks => self.blocks[idx].clone(),
            TableKind::Transactions => self.transactions[idx].clone(),
            TableKind::Transfers => self.transfers[idx].clone(),
            TableKind::Pools => self.pools[idx].clone(),
        };
        Ok(Some(rec))
    }

    fn query_window(&mut self, k: TableKind, window_secs: u64) -> (r: Result<
        Vec<Record>,
        BenchmarkError,
    >)
        ensures
            r is Ok,
            r matches Ok(rows) ==> rows@ == rows_in_window(
                old(self).table(k),
                old(self).now_epoch_spec() - window_secs,
            ),
    {
        let n = match k {
            TableKind::Blocks => self.blocks.len(),
            TableKind::Transactions => self.transactions.len(),
            TableKind::Transfers => self.transfers.len(),
            TableKind::Pools => self.pools.len(),
        };
        let ghost cutoff: int = old(self).now_epoch_spec() - window_secs;
        let mut out: Vec<Record> = Vec::new();
        let mut i: usize = 0;
        while i < n
            invariant
                n == old(self).table(k).len(),
                *self == *old(self),
                i <= n,
                cutoff == old(self).now_epoch_spec() - window_secs,
                out@ == rows_in_window(old(self).table(k).subrange(0, i as int), cutoff),
                forall|j: int|
                    0 <= j < out@.len() ==> old(self).table(k).contains(#[trigger] out@[j]),
            decreases n - i,
        {
            let rec = self.row_at(k, i);
            let keep = self.in_window(&rec, window_secs);
            proof {
                let prefix = old(self).table(k).subrange(0, i as int + 1);
                assert(prefix.drop_last() =~= old(self).table(k).subrange(0, i as int));
                assert(prefix.last() == rec);
            }
            if keep {
                proof {
                    assert(old(self).table(k).contains(rec)) by {
                        assert(old(self).table(k)[i as int] == rec);
                    }
                    assert(out@.push(rec) =~= out@ + seq![rec]);
                }
                out.push(rec);
            } else {
                proof {
                    assert(rows_in_window(old(self).table(k).subrange(0, i as int + 1), cutoff)
                        =~= out@);
                }
            }
            i = i + 1;
        }
        proof {
            assert(old(self).table(k).subrange(0, n as int) =~= old(self).table(k));
        }
        Ok(out)
    }

    fn reset(&mut self) -> (r: Result<(), BenchmarkError>)
        ensures
            r is Ok,
    {
        self.blocks = Vec::new();
        self.transactions = Vec::new();
        self.transfers = Vec::new();
        self.pools = Vec::new();
        Ok(())
    }
}

} // verus!
