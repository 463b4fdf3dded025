use vstd::arithmetic::div_mod::{
    lemma_div_pos_is_pos, lemma_fundamental_div_mod, lemma_fundamental_div_mod_converse,
    lemma_mod_pos_bound,
};
use vstd::prelude::*;

verus! {

/// One contiguous batch: the rows `start .. end` of a collection, moved
/// through a single bulk-channel invocation.
#[derive(Debug, Clone, Copy, PartialEq, Eq, Structural)]
pub struct Batch {
    pub start: usize,
    pub end: usize,
}

/// How a collection of rows is cut into batches.
#[derive(Debug, Clone, Copy, PartialEq, Eq, Structural)]
pub enum BatchStrategy {
    /// Fixed-size chunks of the given length; the natural choice when rows
    /// are issued as plain insert statements.
    FixedSize(usize),
    /// Cut the collection into roughly this many equal batches regardless of
    /// its absolute size; the natural choice for a streaming bulk copy.
    Proportional(usize),
}

pub open spec fn strategy_wf(s: BatchStrategy) -> bool {
    match s {
        BatchStrategy::FixedSize(b) => b >= 1,
        BatchStrategy::Proportional(k) => k >= 1,
    }
}

/// The batch size a strategy yields for a collection of `n` rows; a
/// proportional split never drops below one row per batch.
pub open spec fn batch_size_spec(s: BatchStrategy, n: int) -> int {
    match s {
        BatchStrategy::FixedSize(b) => b as int,
        BatchStrategy::Proportional(k) => {
            if n / (k as int) == 0 {
                1
            } else {
                n / (k as int)
            }
        },
    }
}

pub fn effective_batch_size(s: BatchStrategy, n: usize) -> (r: usize)
    requires
        strategy_wf(s),
    ensures
        r == batch_size_spec(s, n as int),
        r >= 1,
{
    match s {
        BatchStrategy::FixedSize(b) => b,
        BatchStrategy::Proportional(k) => {
            let q = n / k;
            if q == 0 {
                1
            } else {
                q
            }
        },
    }
}

pub open spec fn ceil_div(n: int, b: int) -> int {
    (n + b - 1) / b
}

/// The ceiling quotient of a nonnegative count is never negative.
pub proof fn lemma_ceil_div_nonneg(n: int, b: int)
    requires
        n >= 0,
        b >= 1,
    ensures
        ceil_div(n, b) >= 0,
{
    lemma_div_pos_is_pos(n + b - 1, b);
}

/// A well-formed strategy always yields at least one row per batch.
pub proof fn lemma_batch_size_spec_pos(s: BatchStrategy, n: int)
    requires
        strategy_wf(s),
        n >= 0,
    ensures
        batch_size_spec(s, n) >= 1,
{
    match s {
        BatchStrategy::FixedSize(_) => {},
        BatchStrategy::Proportional(k) => {
            lemma_div_pos_is_pos(n, k as int);
        },
    }
}

/// Partition `n` rows into contiguous batches of at most `b` rows each:
/// `ceil(n / b)` of them, every one non-empty, covering `0 .. n` in order.
pub fn batch_bounds(n: usize, b: usize) -> (r: Vec<Batch>)
    requires
        b >= 1,
    ensures
        r@.len() == ceil_div(n as int, b as int),
        forall|i: int|
            0 <= i < r@.len() ==> (#[trigger] r@[i]).start == i * b && r@[i].end == (if (i + 1) * b
                <= n {
                (i + 1) * (b as int)
            } else {
                n as int
            }),
        forall|i: int| 0 <= i < r@.len() ==> (#[trigger] r@[i]).start < r@[i].end <= n,
        forall|i: int| 0 <= i < r@.len() ==> (#[trigger] r@[i]).end - r@[i].start <= b,
        forall|i: int| 0 <= i < r@.len() - 1 ==> (#[trigger] r@[i]).end == r@[i + 1].start,
        n > 0 ==> r@.len() > 0 && r@[0].start == 0 && r@[r@.len() - 1].end == n,
        n == 0 ==> r@.len() == 0,
{
    let mut r: Vec<Batch> = Vec::new();
    let mut start: usize = 0;
    let ghost mut i: int = 0;
    while start < n
        invariant
            b >= 1,
            i == r@.len(),
            start == if i * b <= n {
                i * (b as int)
            } else {
                n as int
            },
            start <= n,
            i >= 0,
            i == 0 || (i - 1) * b < n,
            forall|j: int|
                0 <= j < r@.len() ==> (#[trigger] r@[j]).start == j * b && r@[j].end == (if (j + 1)
                    * b <= n {
                    (j + 1) * (b as int)
                } else {
                    n as int
                }),
            forall|j: int| 0 <= j < r@.len() ==> (#[trigger] r@[j]).start < r@[j].end <= n,
            forall|j: int| 0 <= j < r@.len() ==> (#[trigger] r@[j]).end - r@[j].start <= b,
        decreases n - start,
    {
        proof {
            // while looping, the running start sits exactly at i * b
            assert(i * b <= n) by {
                if i * b > n {
                    assert(start == n);
                }
            }
            assert(start == i * b);
            assert((i + 1) * b == i * b + b) by (nonlinear_arith);
        }
        let end: usize = if n - start >= b {
            start + b
        } else {
            n
        };
        r.push(Batch { start, end });
        proof {
            i = i + 1;
        }
        start = end;
    }
    proof {
        // on exit the batches reach n exactly, and their count is ceil(n / b)
        assert(i * b >= n) by {
            if i * b < n {
                assert(start == i * b);
            }
        }
        if n == 0 {
            assert(i == 0);
            assert(ceil_div(n as int, b as int) == 0) by {
                lemma_fundamental_div_mod_converse(n + b - 1, b as int, 0, b - 1);
            }
        } else {
            assert(i >= 1);
            assert((i - 1) * b == i * b - b) by (nonlinear_arith);
            // i * b >= n and (i - 1) * b < n pin i as the ceiling quotient
            assert(ceil_div(n as int, b as int) == i) by {
                lemma_fundamental_div_mod_converse(
                    n + b - 1,
                    b as int,
                    i,
                    n + b - 1 - i * b,
                );
            }
        }
        assert forall|j: int| 0 <= j < r@.len() - 1 implies (#[trigger] r@[j]).end == r@[j
            + 1].start by {
            assert(r@[j + 1].start < r@[j + 1].end <= n);
        }
    }
    r
}

/// The total number of rows the batches of `r` cover.
pub open spec fn sizes_total(r: Seq<Batch>) -> int
    decreases r.len(),
{
    if r.len() == 0 {
        0
    } else {
        (r[0].end - r[0].start) + sizes_total(r.subrange(1, r.len() as int))
    }
}

/// A chain of adjacent batches from `a` to `n` covers exactly `n - a` rows.
proof fn lemma_chain_total(r: Seq<Batch>, a: int, n: int)
    requires
        r.len() == 0 ==> a == n,
        r.len() > 0 ==> r[0].start == a,
        r.len() > 0 ==> r[r.len() - 1].end == n,
        forall|i: int| 0 <= i < r.len() - 1 ==> (#[trigger] r[i]).end == r[i + 1].start,
    ensures
        sizes_total(r) == n - a,
    decreases r.len(),
{
    if r.len() > 0 {
        let rest = r.subrange(1, r.len() as int);
        if r.len() == 1 {
            assert(sizes_total(rest) == 0);
        } else {
            assert(rest[0].start == r[0].end);
            assert(rest[rest.len() - 1].end == n);
            assert(forall|i: int|
                0 <= i < rest.len() - 1 ==> (#[trigger] rest[i]).end == rest[i + 1].start);
            lemma_chain_total(rest, r[0].end as int, n);
        }
    }
}

/// Law: a partition of `n` rows with maximum batch size `b` has exactly
/// `ceil(n / b)` batches, every batch holds between 1 and `b` rows, and the
/// batch sizes sum to exactly `n`.
pub proof fn lemma_batch_partition_total(n: int, b: int, r: Seq<Batch>)
    requires
        b >= 1,
        n >= 0,
        r.len() == ceil_div(n, b),
        forall|i: int|
            0 <= i < r.len() ==> (#[trigger] r[i]).start == i * b && r[i].end == (if (i + 1) * b
                <= n {
                (i + 1) * b
            } else {
                n
            }),
    ensures
        sizes_total(r) == n,
        forall|i: int| 0 <= i < r.len() ==> 1 <= (#[trigger] r[i]).end - r[i].start <= b,
{
    if n == 0 {
        lemma_fundamental_div_mod_converse(n + b - 1, b, 0, b - 1);
        assert(r.len() == 0);
        lemma_chain_total(r, 0, 0);
    } else {
        let k = ceil_div(n, b);
        lemma_fundamental_div_mod(n + b - 1, b);
        lemma_mod_pos_bound(n + b - 1, b);
        assert(k * b + b > n && n > k * b - b && k >= 1) by (nonlinear_arith)
            requires
                b >= 1,
                n >= 1,
                n + b - 1 == b * k + ((n + b - 1) % b),
                0 <= (n + b - 1) % b < b,
        ;
        assert forall|i: int| 0 <= i < r.len() implies 1 <= (#[trigger] r[i]).end - r[i].start
            <= b by {
            assert((i + 1) * b == i * b + b) by (nonlinear_arith);
            assert(i * b < n) by (nonlinear_arith)
                requires
                    0 <= i < k,
                    b >= 1,
                    k * b - b < n,
            ;
        }
        assert forall|i: int| 0 <= i < r.len() - 1 implies (#[trigger] r[i]).end == r[i
            + 1].start by {
            assert((i + 1) * b == i * b + b) by (nonlinear_arith);
            assert((i + 1) * b <= n) by (nonlinear_arith)
                requires
                    0 <= i < k - 1,
                    b >= 1,
                    k * b - b < n,
                    k * b + b > n,
                    (i + 1) * b == i * b + b,
            ;
        }
        assert(r[0].start == 0);
        assert(r[k - 1].end == n) by {
            assert(k * b == (k - 1) * b + b) by (nonlinear_arith);
            assert(k * b >= n) by (nonlinear_arith)
                requires
                    b >= 1,
                    n + b - 1 == b * k + ((n + b - 1) % b),
                    0 <= (n + b - 1) % b < b,
            ;
        }
        lemma_chain_total(r, 0, n);
    }
}

} // verus!
