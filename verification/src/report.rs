use crate::batching::{strategy_wf, BatchStrategy};
use crate::bulk::{bulk_load, planned_batches, BulkFailure, BulkReport};
use crate::dataset::Dataset;
use crate::error::BenchmarkError;
use crate::mixture::Mixture;
use crate::models::TableKind;
use crate::prober::probe_ranges;
use crate::rate::rate_of;
use crate::rng::SeededRng;
use crate::store::Store;
use crate::workload::{run_workload, RunReport};
use vstd::arithmetic::div_mod::{lemma_fundamental_div_mod, lemma_mod_pos_bound};
use vstd::prelude::*;

verus! {

/// Everything one benchmark invocation is configured by: the bulk batching
/// strategy, the two workloads' step counts and fan-outs, the range windows
/// and the seed. Ambient state — connection strings, file paths — stays with
/// the caller; the engine sees only this value.
#[derive(Debug, PartialEq, Eq)]
pub struct BenchmarkConfig {
    pub bulk_strategy: BatchStrategy,
    pub single_steps: usize,
    pub single_fan_out: usize,
    pub mixed_steps: usize,
    pub mixed_fan_out: usize,
    pub windows: Vec<u64>,
    pub seed: u64,
}

impl BenchmarkConfig {
    pub open spec fn wf(&self) -> bool {
        &&& strategy_wf(self.bulk_strategy)
        &&& self.single_fan_out >= 1
        &&& self.mixed_fan_out >= 1
        &&& self.single_steps * self.single_fan_out <= usize::MAX
        &&& self.mixed_steps * self.mixed_fan_out <= usize::MAX
    }

    /// The documented defaults: fixed 1000-row batches for the bulk load;
    /// 2,500 single-insert steps of fan-out four, so 10,000 row operations;
    /// 50,000 mixed steps of fan-out one; windows of one hour, one day and
    /// one week.
    pub fn standard(seed: u64) -> (r: BenchmarkConfig)
        ensures
            r.wf(),
            r.bulk_strategy == BatchStrategy::FixedSize(1000usize),
            r.single_steps == 2500 && r.single_fan_out == 4,
            r.mixed_steps == 50000 && r.mixed_fan_out == 1,
            r.windows@ == seq![3600u64, 86400u64, 604800u64],
            r.seed == seed,
    {
        let windows: Vec<u64> = vec![3600, 86400, 604800];
        BenchmarkConfig {
            bulk_strategy: BatchStrategy::FixedSize(1000),
            single_steps: 2500,
            single_fan_out: 4,
            mixed_steps: 50000,
            mixed_fan_out: 1,
            windows,
            seed,
        }
    }

    /// Exactly the well-formedness the patterns require.
    pub fn validate(&self) -> (r: bool)
        ensures
            r == self.wf(),
    {
        let strategy_ok = match self.bulk_strategy {
            BatchStrategy::FixedSize(b) => b >= 1,
            BatchStrategy::Proportional(k) => k >= 1,
        };
        strategy_ok && self.single_fan_out >= 1 && self.mixed_fan_out >= 1 && mul_fits(
            self.single_steps,
            self.single_fan_out,
        ) && mul_fits(self.mixed_steps, self.mixed_fan_out)
    }
}

/// Does `a * b` stay within the step-count arithmetic the runner uses?
fn mul_fits(a: usize, b: usize) -> (r: bool)
    requires
        b >= 1,
    ensures
        r == (a * b <= usize::MAX),
{
    proof {
        lemma_fundamental_div_mod(usize::MAX as int, b as int);
        lemma_mod_pos_bound(usize::MAX as int, b as int);
        assert((a <= usize::MAX as int / b as int) == (a * b <= usize::MAX)) by (nonlinear_arith)
            requires
                b >= 1,
                a >= 0,
                usize::MAX as int == b * (usize::MAX as int / b as int) + (usize::MAX as int % (
                b as int)),
                0 <= usize::MAX as int % (b as int) < b,
        ;
    }
    a <= usize::MAX / b
}

/// The four pattern results, one summary value: each pattern either reports
/// its measurement or the tagged failure that aborted it, and one pattern's
/// failure never stops the next from being attempted.
#[derive(Debug, PartialEq, Eq)]
pub struct BenchmarkSummary {
    pub bulk: Result<BulkReport, BulkFailure>,
    pub single: Result<RunReport, BenchmarkError>,
    pub mixed: Result<RunReport, BenchmarkError>,
    pub range: Result<Vec<(u64, u64)>, BenchmarkError>,
}

/// The whole benchmark, pattern after pattern, never concurrently: bulk load
/// the dataset, reset, run the pure-write single-insert workload, reset, run
/// the 80/20 mixed workload, then probe the range windows. A malformed
/// configuration is rejected up front — exactly when `config.wf()` fails —
/// and a reset failure is charged to the pattern that could not start.
pub fn run_all_patterns<S: Store>(store: &mut S, data: &Dataset, config: &BenchmarkConfig) -> (r:
    Result<BenchmarkSummary, BenchmarkError>)
    requires
        data.blocks@.len() + data.transactions@.len() + data.transfers@.len() + data.pools@.len()
            <= usize::MAX,
    ensures
        r is Err <==> !config.wf(),
        r matches Err(e) ==> e is Config,
        r matches Ok(s) ==> {
            &&& (s.bulk matches Ok(rep) ==> rep.records == data.count_spec(TableKind::Blocks)
                + data.count_spec(TableKind::Transactions) + data.count_spec(TableKind::Transfers)
                + data.count_spec(TableKind::Pools) && rep.batches == planned_batches(
                data,
                config.bulk_strategy,
            ) && rep.rate == rate_of(rep.records as u64, rep.elapsed_micros))
            &&& (data.blocks@.len() + data.transactions@.len() + data.transfers@.len()
                + data.pools@.len() == 0 ==> s.bulk is Ok)
            &&& (config.windows@.len() == 0 ==> s.range is Ok)
            &&& (s.single matches Ok(rep) ==> rep.steps == config.single_steps
                && rep.ops_attempted == config.single_steps * config.single_fan_out && rep.rate
                == rate_of(config.single_steps as u64, rep.elapsed_micros))
            &&& (s.mixed matches Ok(rep) ==> rep.steps == config.mixed_steps && rep.ops_attempted
                == config.mixed_steps * config.mixed_fan_out && rep.rate == rate_of(
                config.mixed_steps as u64,
                rep.elapsed_micros,
            ))
            &&& (s.range matches Ok(lat) ==> lat@.len() == config.windows@.len() && forall|i: int|
                0 <= i < lat@.len() ==> (#[trigger] lat@[i]).0 == config.windows@[i])
        },
{
    if !config.validate() {
        return Err(BenchmarkError::Config("benchmark configuration is malformed".to_owned()));
    }
    let mut rng = SeededRng::new(config.seed);

    let bulk = bulk_load(store, data, config.bulk_strategy);

    let pure = Mixture::pure_write();
    let single = match store.reset() {
        Ok(()) => run_workload(
            store,
            data,
            &pure,
            &mut rng,
            config.single_steps,
            config.single_fan_out,
        ),
        Err(e) => Err(e),
    };

    let mixed_mixture = Mixture::mixed_read_write();
    let mixed = match store.reset() {
        Ok(()) => run_workload(
            store,
            data,
            &mixed_mixture,
            &mut rng,
            config.mixed_steps,
            config.mixed_fan_out,
        ),
        Err(e) => Err(e),
    };

    let range = probe_ranges(store, &config.windows);

    Ok(BenchmarkSummary { bulk, single, mixed, range })
}

} // verus!
