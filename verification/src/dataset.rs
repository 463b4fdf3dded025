use crate::models::{Block, Pool, Record, TableKind, Transaction, Transfer};
use crate::rng::{rng_step, SeededRng};
use vstd::prelude::*;

verus! {

/// The in-memory record provider: four homogeneous collections, loaded once
/// before any pattern runs and read-only for the rest of the run.
#[derive(Debug, PartialEq, Eq)]
pub struct Dataset {
    pub blocks: Vec<Block>,
    pub transactions: Vec<Transaction>,
    pub transfers: Vec<Transfer>,
    pub pools: Vec<Pool>,
}

impl Dataset {
    /// How many records the collection of the given kind holds.
    pub open spec fn count_spec(&self, k: TableKind) -> nat {
        match k {
            TableKind::Blocks => self.blocks@.len(),
            TableKind::Transactions => self.transactions@.len(),
            TableKind::Transfers => self.transfers@.len(),
            TableKind::Pools => self.pools@.len(),
        }
    }

    /// The record at position `i` of the collection of the given kind,
    /// wrapped as a row.
    pub open spec fn record_spec(&self, k: TableKind, i: int) -> Record {
        match k {
            TableKind::Blocks => Record::Block(self.blocks@[i]),
            TableKind::Transactions => Record::Transaction(self.transactions@[i]),
            TableKind::Transfers => Record::Transfer(self.transfers@[i]),
            TableKind::Pools => Record::Pool(self.pools@[i]),
        }
    }

    /// The whole collection of the given kind, as rows, in order.
    pub open spec fn records_spec(&self, k: TableKind) -> Seq<Record> {
        Seq::new(self.count_spec(k), |i: int| self.record_spec(k, i))
    }

    pub fn empty() -> (r: Dataset)
        ensures
            forall|k: TableKind| #[trigger] r.count_spec(k) == 0,
    {
        Dataset { blocks: Vec::new(), transactions: Vec::new(), transfers: Vec::new(), pools: Vec::new() }
    }

    pub fn count(&self, k: TableKind) -> (r: usize)
        ensures
            r == self.count_spec(k),
    {
        match k {
            TableKind::Blocks => self.blocks.len(),
            TableKind::Transactions => self.transactions.len(),
            TableKind::Transfers => self.transfers.len(),
            TableKind::Pools => self.pools.len(),
        }
    }

    /// The grand total over all four collections; the denominator of the
    /// bulk-load rate.
    pub fn total_records(&self) -> (r: usize)
        requires
            self.blocks@.len() + self.transactions@.len() + self.transfers@.len()
                + self.pools@.len() <= usize::MAX,
        ensures
            r == self.count_spec(TableKind::Blocks) + self.count_spec(TableKind::Transactions)
                + self.count_spec(TableKind::Transfers) + self.count_spec(TableKind::Pools),
    {
        self.blocks.len() + self.transactions.len() + self.transfers.len() + self.pools.len()
    }

    /// A copy of the record at `i` of the collection of kind `k`.
    pub fn record_at(&self, k: TableKind, i: usize) -> (r: Record)
        requires
            i < self.count_spec(k),
        ensures
            r == self.record_spec(k, i as int),
    {
        match k {
            TableKind::Blocks => Record::Block(self.blocks[i].clone()),
            TableKind::Transactions => Record::Transaction(self.transactions[i].clone()),
            TableKind::Transfers => Record::Transfer(self.transfers[i].clone()),
            TableKind::Pools => Record::Pool(self.pools[i].clone()),
        }
    }

    /// Sample one record uniformly at random. An empty collection yields no
    /// record — and consumes no draw — rather than failing: the calling step
    /// still counts toward its pattern's denominator.
    pub fn sample(&self, k: TableKind, rng: &mut SeededRng) -> (r: Option<Record>)
        ensures
            r is Some <==> self.count_spec(k) > 0,
            self.count_spec(k) == 0 ==> *final (rng) == *old(rng),
            self.count_spec(k) > 0 ==> {
                &&& final (rng).state == rng_step(old(rng).state)
                &&& r == Some(
                    self.record_spec(
                        k,
                        (rng_step(old(rng).state) % (self.count_spec(k) as u64)) as int,
                    ),
                )
            },
    {
        let n = self.count(k);
        if n == 0 {
            None
        } else {
            let idx = rng.next_below(n as u64) as usize;
            Some(self.record_at(k, idx))
        }
    }

    /// The data-load recovery policy: a collection whose fixture failed to
    /// load is replaced by an empty one, and the number of such substitutions
    /// is reported as a warning count, so the run can still benchmark
    /// whatever subset loaded.
    pub fn from_loaded(
        blocks: Option<Vec<Block>>,
        transactions: Option<Vec<Transaction>>,
        transfers: Option<Vec<Transfer>>,
        pools: Option<Vec<Pool>>,
    ) -> (r: (Dataset, u32))
        ensures
            r.0.blocks@ == (if blocks is Some {
                blocks->Some_0@
            } else {
                Seq::<Block>::empty()
            }),
            r.0.transactions@ == (if transactions is Some {
                transactions->Some_0@
            } else {
                Seq::<Transaction>::empty()
            }),
            r.0.transfers@ == (if transfers is Some {
                transfers->Some_0@
            } else {
                Seq::<Transfer>::empty()
            }),
            r.0.pools@ == (if pools is Some {
                pools->Some_0@
            } else {
                Seq::<Pool>::empty()
            }),
            r.1 == (if blocks is Some { 0int } else { 1int }) + (if transactions is Some {
                0int
            } else {
                1int
            }) + (if transfers is Some { 0int } else { 1int }) + (if pools is Some {
                0int
            } else {
                1int
            }),
    {
        let mut failed: u32 = 0;
        let blocks = match blocks {
            Some(v) => v,
            None => {
                failed = failed + 1;
                Vec::new()
            },
        };
        let transactions = match transactions {
            Some(v) => v,
            None => {
                failed = failed + 1;
                Vec::new()
            },
        };
        let transfers = match transfers {
            Some(v) => v,
            None => {
                failed = failed + 1;
                Vec::new()
            },
        };
        let pools = match pools {
            Some(v) => v,
            None => {
                failed = failed + 1;
                Vec::new()
            },
        };
        (Dataset { blocks, transactions, transfers, pools }, failed)
    }
}

} // verus!
