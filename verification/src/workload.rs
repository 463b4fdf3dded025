use crate::clock::{clock_elapsed_micros, clock_start};
use crate::dataset::Dataset;
use crate::error::BenchmarkError;
use crate::mixture::{next_operation, Mixture, OpKind};
use crate::models::TableKind;
use crate::rate::{rate_of, Rate};
use crate::rng::{rng_step, SeededRng};
use crate::store::Store;
use vstd::arithmetic::mul::lemma_mul_inequality;
use vstd::prelude::*;

verus! {

/// The number of rows the store holds over all four tables.
pub open spec fn table_len_total<S: Store>(s: &S) -> int {
    s.table(TableKind::Blocks).len() as int + s.table(TableKind::Transactions).len() + s.table(
        TableKind::Transfers,
    ).len() + s.table(TableKind::Pools).len()
}

/// What a completed workload run reports. Every one of `steps * fan_out`
/// operations was attempted: each became a write that landed in the store, a
/// read, or — when the sampled collection was empty — a counted no-op. The
/// rate's denominator counts steps, as the patterns define it.
#[derive(Debug, Clone, Copy, PartialEq, Eq, Structural)]
pub struct RunReport {
    pub steps: usize,
    pub ops_attempted: usize,
    pub writes: usize,
    pub reads: usize,
    pub skipped: usize,
    pub elapsed_micros: u64,
    pub rate: Rate,
}

/// The table a write category inserts into.
fn write_table(op: OpKind) -> (k: TableKind)
    requires
        op.is_write(),
    ensures
        op is InsertBlock ==> k == TableKind::Blocks,
        op is InsertTransaction ==> k == TableKind::Transactions,
        op is InsertTransfer ==> k == TableKind::Transfers,
        op is InsertPool ==> k == TableKind::Pools,
{
    match op {
        OpKind::InsertBlock => TableKind::Blocks,
        OpKind::InsertTransaction => TableKind::Transactions,
        OpKind::InsertTransfer => TableKind::Transfers,
        OpKind::InsertPool => TableKind::Pools,
        OpKind::ReadRandomRow => TableKind::Blocks,
    }
}

/// The table an unordered random-row fetch reads, drawn uniformly.
fn read_table(rng: &mut SeededRng) -> (k: TableKind)
    ensures
        final (rng).state == rng_step(old(rng).state),
        ({
            let d = rng_step(old(rng).state) % 4;
            k == if d == 0 {
                TableKind::Blocks
            } else if d == 1 {
                TableKind::Transactions
            } else if d == 2 {
                TableKind::Transfers
            } else {
                TableKind::Pools
            }
        }),
{
    match rng.next_below(4) {
        0 => TableKind::Blocks,
        1 => TableKind::Transactions,
        2 => TableKind::Transfers,
        _ => TableKind::Pools,
    }
}

/// Patterns two and three, the randomized workloads: `steps` steps of
/// `fan_out` operations each, every tag drawn from the mixture. A write tag
/// samples one record uniformly from the provider's matching collection and
/// issues a single-row insert; sampling from an empty collection is a
/// counted no-op, not an error. A read tag issues one unordered random-row
/// fetch. Each operation runs to completion before the next starts, and the
/// first store failure aborts the pattern. On success every attempted write
/// is in the store — the tables grew by exactly `writes` rows, and a table
/// whose collection is empty is untouched — and the rate is
/// `steps / elapsed`. A run of zero steps makes no store call and cannot
/// fail; an aborted run has grown the store by at most the operations
/// attempted before the failure.
pub fn run_workload<S: Store>(
    store: &mut S,
    data: &Dataset,
    mixture: &Mixture,
    rng: &mut SeededRng,
    steps: usize,
    fan_out: usize,
) -> (r: Result<RunReport, BenchmarkError>)
    requires
        mixture.well_formed(),
        fan_out >= 1,
        steps * fan_out <= usize::MAX,
    ensures
        r matches Ok(rep) ==> {
            &&& rep.steps == steps
            &&& rep.ops_attempted == steps * fan_out
            &&& rep.writes + rep.reads + rep.skipped == rep.ops_attempted
            &&& table_len_total(final (store)) == table_len_total(old(store)) + rep.writes
            &&& rep.rate == rate_of(steps as u64, rep.elapsed_micros)
        },
        r is Ok ==> forall|k: TableKind|
            data.count_spec(k) == 0 ==> #[trigger] final (store).table(k) == old(store).table(k),
        steps == 0 ==> r is Ok,
        table_len_total(final (store)) >= table_len_total(old(store)),
        table_len_total(final (store)) <= table_len_total(old(store)) + steps * fan_out,
{
    let timer = clock_start();
    let mut writes: usize = 0;
    let mut reads: usize = 0;
    let mut skipped: usize = 0;
    let mut si: usize = 0;
    while si < steps
        invariant
            mixture.well_formed(),
            fan_out >= 1,
            steps * fan_out <= usize::MAX,
            si <= steps,
            writes + reads + skipped == si * fan_out,
            table_len_total(store) == table_len_total(old(store)) + writes,
            forall|k: TableKind|
                data.count_spec(k) == 0 ==> #[trigger] store.table(k) == old(store).table(k),
        decreases steps - si,
    {
        let mut oi: usize = 0;
        while oi < fan_out
            invariant
                mixture.well_formed(),
                fan_out >= 1,
                steps * fan_out <= usize::MAX,
                si < steps,
                oi <= fan_out,
                writes + reads + skipped == si * fan_out + oi,
                table_len_total(store) == table_len_total(old(store)) + writes,
                forall|k: TableKind|
                    data.count_spec(k) == 0 ==> #[trigger] store.table(k) == old(store).table(k),
            decreases fan_out - oi,
        {
            proof {
                lemma_mul_inequality(si + 1, steps as int, fan_out as int);
                assert((si + 1) * fan_out == si * fan_out + fan_out) by (nonlinear_arith);
            }
            let op = next_operation(mixture, rng);
            let is_write = match op {
                OpKind::ReadRandomRow => false,
                _ => true,
            };
            if is_write {
                let k = write_table(op);
                match data.sample(k, rng) {
                    Some(rec) => {
                        let ghost pre = *store;
                        match store.insert_row(&rec) {
                            Ok(()) => {
                                proof {
                                    assert(rec.kind_spec() == k);
                                    assert(table_len_total(store) == table_len_total(&pre) + 1)
                                        by {
                                        assert(store.table(rec.kind_spec()) == pre.table(
                                            rec.kind_spec(),
                                        ).push(rec));
                                        assert(forall|j: TableKind|
                                            j != rec.kind_spec() ==> #[trigger] store.table(j)
                                                == pre.table(j));
                                    }
                                    // the inserted row's collection is not empty, so every
                                    // empty collection's table stays untouched
                                    assert forall|j: TableKind|
                                        data.count_spec(j) == 0 implies #[trigger] store.table(j)
                                        == old(store).table(j) by {
                                        assert(j != rec.kind_spec());
                                        assert(store.table(j) == pre.table(j));
                                    }
                                }
                                writes = writes + 1;
                            },
                            Err(e) => {
                                return Err(e);
                            },
                        }
                    },
                    None => {
                        // empty collection: a no-op step, still counted
                        skipped = skipped + 1;
                    },
                }
            } else {
                let k = read_table(rng);
                match store.query_random_row(k) {
                    Ok(_) => {
                        reads = reads + 1;
                    },
                    Err(e) => {
                        return Err(e);
                    },
                }
            }
            oi = oi + 1;
        }
        proof {
            assert((si + 1) * fan_out == si * fan_out + fan_out) by (nonlinear_arith);
        }
        si = si + 1;
    }
    let elapsed_micros = clock_elapsed_micros(&timer);
    let rate = Rate::new(steps as u64, elapsed_micros);
    let ops_attempted = steps * fan_out;
    Ok(RunReport { steps, ops_attempted, writes, reads, skipped, elapsed_micros, rate })
}

} // verus!
