use crate::batching::{
    batch_bounds, batch_size_spec, ceil_div, effective_batch_size, lemma_batch_size_spec_pos,
    lemma_ceil_div_nonneg, strategy_wf, BatchStrategy,
};
use crate::clock::{clock_elapsed_micros, clock_start};
use crate::dataset::Dataset;
use crate::error::BenchmarkError;
use crate::models::{Record, TableKind};
use crate::rate::{rate_of, Rate};
use crate::store::Store;
use vstd::prelude::*;

verus! {

/// What a completed bulk load reports: every record of all four collections
/// went in, and the rate is the grand total over the elapsed wall-clock time.
#[derive(Debug, Clone, Copy, PartialEq, Eq, Structural)]
pub struct BulkReport {
    pub records: usize,
    pub batches: usize,
    pub elapsed_micros: u64,
    pub rate: Rate,
}

/// How a bulk load fails: the first error aborts the whole load, and the
/// only partial-success information surfaced is how many batches had fully
/// committed before the failure.
#[derive(Debug, PartialEq, Eq)]
pub struct BulkFailure {
    pub error: BenchmarkError,
    pub batches_completed: usize,
}

/// Saturating addition, as the reported batch counter uses it.
pub open spec fn sat_add_spec(a: int, b: int) -> int {
    if a + b <= usize::MAX {
        a + b
    } else {
        usize::MAX as int
    }
}

/// How many batches a strategy cuts one collection of `n` rows into.
pub open spec fn collection_batches(strategy: BatchStrategy, n: int) -> int {
    ceil_div(n, batch_size_spec(strategy, n))
}

/// The batch count a completed bulk load reports: the four per-collection
/// ceiling counts, in entity order, summed saturating.
pub open spec fn planned_batches(data: &Dataset, strategy: BatchStrategy) -> int {
    sat_add_spec(
        sat_add_spec(
            sat_add_spec(
                collection_batches(strategy, data.count_spec(TableKind::Blocks) as int),
                collection_batches(strategy, data.count_spec(TableKind::Transactions) as int),
            ),
            collection_batches(strategy, data.count_spec(TableKind::Transfers) as int),
        ),
        collection_batches(strategy, data.count_spec(TableKind::Pools) as int),
    )
}

/// The table of kind `k` holds what it held in `pre` plus some prefix, in
/// order, of the dataset's collection — all that a fail-fast bulk load can
/// leave behind.
pub open spec fn holds_prefix<S: Store>(pre: &S, post: &S, data: &Dataset, k: TableKind) -> bool {
    exists|m: int|
        0 <= m <= data.count_spec(k) && post.table(k) == pre.table(k)
            + #[trigger] data.records_spec(k).subrange(0, m)
}

/// An untouched table holds the empty prefix of its collection.
proof fn lemma_prefix_of_unchanged<S: Store>(pre: &S, post: &S, data: &Dataset, k: TableKind)
    requires
        post.table(k) == pre.table(k),
    ensures
        holds_prefix(pre, post, data, k),
{
    assert(post.table(k) =~= pre.table(k) + data.records_spec(k).subrange(0, 0));
}

/// A fully loaded table holds the whole collection as its prefix.
proof fn lemma_prefix_of_full<S: Store>(pre: &S, post: &S, data: &Dataset, k: TableKind)
    requires
        post.table(k) == pre.table(k) + data.records_spec(k),
    ensures
        holds_prefix(pre, post, data, k),
{
    assert(data.records_spec(k).subrange(0, data.count_spec(k) as int) =~= data.records_spec(k));
}

/// A prefix statement survives renaming the base state to an equal one.
proof fn lemma_prefix_base<S: Store>(pre1: &S, pre2: &S, post: &S, data: &Dataset, k: TableKind)
    requires
        holds_prefix(pre1, post, data, k),
        pre1.table(k) == pre2.table(k),
    ensures
        holds_prefix(pre2, post, data, k),
{
    let m = choose|m: int|
        0 <= m <= data.count_spec(k) && post.table(k) == pre1.table(k)
            + #[trigger] data.records_spec(k).subrange(0, m);
    assert(post.table(k) == pre2.table(k) + data.records_spec(k).subrange(0, m));
}

/// Stream one collection into its table, batch by batch: each batch is one
/// bulk-channel invocation, and a batch must fully commit before the next
/// one of the same collection starts. On success the table has grown by
/// exactly the collection, in order; an empty collection needs no store call
/// and cannot fail. On failure the table holds a prefix of the collection
/// and the error reports how many batches committed.
fn copy_collection<S: Store>(
    store: &mut S,
    data: &Dataset,
    k: TableKind,
    batch_size: usize,
) -> (r: Result<usize, (BenchmarkError, usize)>)
    requires
        batch_size >= 1,
    ensures
        r matches Ok(nb) ==> {
            &&& final (store).table(k) == old(store).table(k) + data.records_spec(k)
            &&& nb == ceil_div(data.count_spec(k) as int, batch_size as int)
        },
        forall|j: TableKind|
            j != k ==> #[trigger] final (store).table(j) == old(store).table(j),
        r is Err ==> holds_prefix(old(store), final (store), data, k),
        r matches Err(f) ==> f.1 <= ceil_div(data.count_spec(k) as int, batch_size as int),
        data.count_spec(k) == 0 ==> r is Ok,
{
    let n = data.count(k);
    let bounds = batch_bounds(n, batch_size);
    let nb = bounds.len();
    let mut bi: usize = 0;
    while bi < nb
        invariant
            batch_size >= 1,
            n == data.count_spec(k),
            nb == bounds@.len(),
            nb == ceil_div(n as int, batch_size as int),
            n == 0 ==> nb == 0,
            bi <= nb,
            forall|j: int| 0 <= j < nb ==> (#[trigger] bounds@[j]).start < bounds@[j].end <= n,
            forall|j: int| 0 <= j < nb - 1 ==> (#[trigger] bounds@[j]).end == bounds@[j + 1].start,
            n > 0 ==> nb > 0 && bounds@[0].start == 0 && bounds@[nb - 1].end == n,
            store.table(k) == old(store).table(k) + data.records_spec(k).subrange(
                0,
                if bi == 0 {
                    0int
                } else {
                    bounds@[bi - 1].end as int
                },
            ),
            forall|j: TableKind|
                j != k ==> #[trigger] store.table(j) == old(store).table(j),
        decreases nb - bi,
    {
        let ghost done: int = if bi == 0 {
            0int
        } else {
            bounds@[bi - 1].end as int
        };
        let start = bounds[bi].start;
        let end = bounds[bi].end;
        proof {
            // the previous batch ends where this one starts
            assert(done == start);
        }
        let mut rows: Vec<Record> = Vec::new();
        let mut j: usize = start;
        while j < end
            invariant
                n == data.count_spec(k),
                start <= j <= end <= n,
                rows@ == data.records_spec(k).subrange(start as int, j as int),
            decreases end - j,
        {
            rows.push(data.record_at(k, j));
            j = j + 1;
            proof {
                assert(data.records_spec(k).subrange(start as int, j as int)
                    =~= data.records_spec(k).subrange(start as int, j - 1).push(
                    data.record_spec(k, j - 1),
                ));
            }
        }
        proof {
            assert forall|x: int| 0 <= x < rows@.len() implies (#[trigger] rows@[x]).kind_spec()
                == k by {
                assert(rows@[x] == data.record_spec(k, start + x));
            }
        }
        match store.copy_in(k, &rows) {
            Ok(()) => {},
            Err(e) => {
                proof {
                    assert(0 <= done <= data.count_spec(k) && store.table(k) == old(store).table(
                        k,
                    ) + data.records_spec(k).subrange(0, done));
                }
                return Err((e, bi));
            },
        }
        bi = bi + 1;
        proof {
            assert(old(store).table(k) + data.records_spec(k).subrange(0, end as int) =~= (old(
                store,
            ).table(k) + data.records_spec(k).subrange(0, start as int)) + data.records_spec(
                k,
            ).subrange(start as int, end as int));
        }
    }
    proof {
        if n == 0 {
            assert(data.records_spec(k).subrange(0, 0) =~= data.records_spec(k));
        } else {
            assert(data.records_spec(k).subrange(0, n as int) =~= data.records_spec(k));
        }
    }
    Ok(nb)
}

/// The batch counts of the four collections are each nonnegative.
proof fn lemma_collection_batches_nonneg(strategy: BatchStrategy, n: int)
    requires
        strategy_wf(strategy),
        n >= 0,
    ensures
        collection_batches(strategy, n) >= 0,
{
    lemma_batch_size_spec_pos(strategy, n);
    lemma_ceil_div_nonneg(n, batch_size_spec(strategy, n));
}

/// Pattern one, the bulk load: partition each collection into batches and
/// stream them in, in entity order — blocks, then transactions, then
/// transfers, then pools. Any failure aborts the load at once; on success
/// every table has grown by exactly its collection, the reported batch
/// count is the sum of the four per-collection ceiling counts, and the rate
/// is `total records / elapsed`, timed from the first batch dispatch to the
/// last batch completion. An empty collection contributes zero records and
/// zero batches without error — a wholly empty dataset cannot fail — and a
/// failed load leaves every table holding a prefix of its collection, with
/// `batches_completed` counting the batches that fully committed, at most
/// the planned total.
pub fn bulk_load<S: Store>(store: &mut S, data: &Dataset, strategy: BatchStrategy) -> (r: Result<
    BulkReport,
    BulkFailure,
>)
    requires
        strategy_wf(strategy),
        data.blocks@.len() + data.transactions@.len() + data.transfers@.len() + data.pools@.len()
            <= usize::MAX,
    ensures
        r matches Ok(rep) ==> {
            &&& final (store).table(TableKind::Blocks) == old(store).table(TableKind::Blocks)
                + data.records_spec(TableKind::Blocks)
            &&& final (store).table(TableKind::Transactions) == old(store).table(
                TableKind::Transactions,
            ) + data.records_spec(TableKind::Transactions)
            &&& final (store).table(TableKind::Transfers) == old(store).table(
                TableKind::Transfers,
            ) + data.records_spec(TableKind::Transfers)
            &&& final (store).table(TableKind::Pools) == old(store).table(TableKind::Pools)
                + data.records_spec(TableKind::Pools)
            &&& rep.records == data.count_spec(TableKind::Blocks) + data.count_spec(
                TableKind::Transactions,
            ) + data.count_spec(TableKind::Transfers) + data.count_spec(TableKind::Pools)
            &&& rep.batches == planned_batches(data, strategy)
            &&& rep.rate == rate_of(rep.records as u64, rep.elapsed_micros)
        },
        data.blocks@.len() + data.transactions@.len() + data.transfers@.len() + data.pools@.len()
            == 0 ==> r is Ok,
        r matches Err(f) ==> {
            &&& forall|k: TableKind| #[trigger] holds_prefix(old(store), final (store), data, k)
            &&& f.batches_completed <= planned_batches(data, strategy)
        },
{
    proof {
        lemma_collection_batches_nonneg(strategy, data.count_spec(TableKind::Blocks) as int);
        lemma_collection_batches_nonneg(strategy, data.count_spec(TableKind::Transactions) as int);
        lemma_collection_batches_nonneg(strategy, data.count_spec(TableKind::Transfers) as int);
        lemma_collection_batches_nonneg(strategy, data.count_spec(TableKind::Pools) as int);
    }
    let timer = clock_start();
    let mut batches: usize = 0;

    let ghost s0 = *store;
    let b_blocks = effective_batch_size(strategy, data.count(TableKind::Blocks));
    match copy_collection(store, data, TableKind::Blocks, b_blocks) {
        Ok(nb) => {
            batches = saturating_add_usize(batches, nb);
        },
        Err((error, done)) => {
            proof {
                assert forall|k: TableKind| #[trigger] holds_prefix(
                    old(store),
                    store,
                    data,
                    k,
                ) by {
                    if k != TableKind::Blocks {
                        lemma_prefix_of_unchanged(old(store), store, data, k);
                    }
                }
            }
            return Err(BulkFailure { error, batches_completed: done });
        },
    }

    let ghost s1 = *store;
    let b_txs = effective_batch_size(strategy, data.count(TableKind::Transactions));
    match copy_collection(store, data, TableKind::Transactions, b_txs) {
        Ok(nb) => {
            batches = saturating_add_usize(batches, nb);
        },
        Err((error, done)) => {
            proof {
                assert forall|k: TableKind| #[trigger] holds_prefix(
                    old(store),
                    store,
                    data,
                    k,
                ) by {
                    if k == TableKind::Blocks {
                        lemma_prefix_of_full(old(store), store, data, k);
                    } else if k == TableKind::Transactions {
                        lemma_prefix_base(&s1, old(store), store, data, k);
                    } else {
                        lemma_prefix_of_unchanged(old(store), store, data, k);
                    }
                }
            }
            return Err(
                BulkFailure { error, batches_completed: saturating_add_usize(batches, done) },
            );
        },
    }

    let ghost s2 = *store;
    let b_transfers = effective_batch_size(strategy, data.count(TableKind::Transfers));
    match copy_collection(store, data, TableKind::Transfers, b_transfers) {
        Ok(nb) => {
            batches = saturating_add_usize(batches, nb);
        },
        Err((error, done)) => {
            proof {
                assert forall|k: TableKind| #[trigger] holds_prefix(
                    old(store),
                    store,
                    data,
                    k,
                ) by {
                    if k == TableKind::Blocks || k == TableKind::Transactions {
                        lemma_prefix_of_full(old(store), store, data, k);
                    } else if k == TableKind::Transfers {
                        lemma_prefix_base(&s2, old(store), store, data, k);
                    } else {
                        lemma_prefix_of_unchanged(old(store), store, data, k);
                    }
                }
            }
            return Err(
                BulkFailure { error, batches_completed: saturating_add_usize(batches, done) },
            );
        },
    }

    let ghost s3 = *store;
    let b_pools = effective_batch_size(strategy, data.count(TableKind::Pools));
    match copy_collection(store, data, TableKind::Pools, b_pools) {
        Ok(nb) => {
            batches = saturating_add_usize(batches, nb);
        },
        Err((error, done)) => {
            proof {
                assert forall|k: TableKind| #[trigger] holds_prefix(
                    old(store),
                    store,
                    data,
                    k,
                ) by {
                    if k == TableKind::Pools {
                        lemma_prefix_base(&s3, old(store), store, data, k);
                    } else {
                        lemma_prefix_of_full(old(store), store, data, k);
                    }
                }
            }
            return Err(
                BulkFailure { error, batches_completed: saturating_add_usize(batches, done) },
            );
        },
    }

    let elapsed_micros = clock_elapsed_micros(&timer);
    let records = data.total_records();
    let rate = Rate::new(records as u64, elapsed_micros);
    Ok(BulkReport { records, batches, elapsed_micros, rate })
}

/// Batch counts are only reporting detail; adding them saturates rather
/// than burdening callers with a bound.
fn saturating_add_usize(a: usize, b: usize) -> (r: usize)
    ensures
        r == sat_add_spec(a as int, b as int),
{
    if a <= usize::MAX - b {
        a + b
    } else {
        usize::MAX
    }
}

} // verus!
