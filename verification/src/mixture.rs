use crate::error::BenchmarkError;
use crate::rng::{rng_iter, rng_step, SeededRng};
use vstd::prelude::*;

verus! {

/// The operation categories a randomized workload is composed of.
#[derive(Debug, Clone, Copy, PartialEq, Eq, Structural)]
pub enum OpKind {
    InsertBlock,
    InsertTransaction,
    InsertTransfer,
    InsertPool,
    ReadRandomRow,
}

impl OpKind {
    pub open spec fn is_write(&self) -> bool {
        !(self is ReadRandomRow)
    }
}

/// Weights are carried in parts of this scale; a well-formed mixture's
/// weights sum to exactly the scale, that is, to 1.0.
pub const WEIGHT_SCALE: u64 = 1_000_000;

pub open spec fn total_weight(entries: Seq<(OpKind, u64)>) -> int
    decreases entries.len(),
{
    if entries.len() == 0 {
        0
    } else {
        entries[0].1 + total_weight(entries.subrange(1, entries.len() as int))
    }
}

pub proof fn lemma_total_weight_nonneg(entries: Seq<(OpKind, u64)>)
    ensures
        total_weight(entries) >= 0,
    decreases entries.len(),
{
    if entries.len() > 0 {
        lemma_total_weight_nonneg(entries.subrange(1, entries.len() as int));
    }
}

/// Resolve one uniform draw `u` against the cumulative weight boundaries:
/// the first category whose boundary lies above `u` wins, so a tie goes to
/// the earlier-declared category; the last category absorbs the rest.
pub open spec fn resolve_spec(entries: Seq<(OpKind, u64)>, u: int) -> OpKind
    decreases entries.len(),
{
    if entries.len() <= 1 {
        entries[0].0
    } else if u < entries[0].1 {
        entries[0].0
    } else {
        resolve_spec(entries.subrange(1, entries.len() as int), u - entries[0].1)
    }
}

/// A weighted set of operation categories driving randomized workload
/// composition. Weights sum to exactly [`WEIGHT_SCALE`].
#[derive(Debug, PartialEq, Eq)]
pub struct Mixture {
    pub entries: Vec<(OpKind, u64)>,
}

impl Mixture {
    pub open spec fn well_formed(&self) -> bool {
        self.entries@.len() >= 1 && total_weight(self.entries@) == WEIGHT_SCALE
    }

    /// Build a mixture, rejecting weight lists that do not sum to exactly
    /// the scale.
    pub fn new(entries: Vec<(OpKind, u64)>) -> (r: Result<Mixture, BenchmarkError>)
        ensures
            r matches Ok(m) ==> m.entries@ == entries@ && m.well_formed(),
            r is Err <==> !((Mixture { entries }).well_formed()),
    {
        let n = entries.len();
        let mut acc: u64 = 0;
        let mut i: usize = 0;
        proof {
            assert(entries@.subrange(0, n as int) =~= entries@);
        }
        while i < n
            invariant
                i <= n,
                n == entries@.len(),
                acc <= WEIGHT_SCALE,
                total_weight(entries@) == acc + total_weight(entries@.subrange(i as int, n as int)),
            decreases n - i,
        {
            let w = entries[i].1;
            proof {
                let suffix = entries@.subrange(i as int, n as int);
                assert(suffix[0] == entries@[i as int]);
                assert(suffix.subrange(1, suffix.len() as int) =~= entries@.subrange(
                    i as int + 1,
                    n as int,
                ));
                lemma_total_weight_nonneg(entries@.subrange(i as int + 1, n as int));
            }
            if w > WEIGHT_SCALE - acc {
                // the weights already exceed the scale, whatever follows
                return Err(
                    BenchmarkError::Config("mixture weights exceed 1.0".to_owned()),
                );
            }
            acc = acc + w;
            i = i + 1;
        }
        proof {
            assert(entries@.subrange(n as int, n as int) =~= Seq::<(OpKind, u64)>::empty());
        }
        if acc != WEIGHT_SCALE {
            return Err(
                BenchmarkError::Config("mixture weights do not sum to 1.0".to_owned()),
            );
        }
        if n == 0 {
            return Err(BenchmarkError::Config("mixture has no categories".to_owned()));
        }
        Ok(Mixture { entries })
    }

    /// The pure-write single-record mixture: the four write categories,
    /// uniformly likely.
    pub fn pure_write() -> (r: Mixture)
        ensures
            r.well_formed(),
            r.entries@ =~= seq![
                (OpKind::InsertBlock, 250_000u64),
                (OpKind::InsertTransaction, 250_000u64),
                (OpKind::InsertTransfer, 250_000u64),
                (OpKind::InsertPool, 250_000u64),
            ],
    {
        let entries: Vec<(OpKind, u64)> = vec![
            (OpKind::InsertBlock, 250_000u64),
            (OpKind::InsertTransaction, 250_000u64),
            (OpKind::InsertTransfer, 250_000u64),
            (OpKind::InsertPool, 250_000u64),
        ];
        proof {
            reveal_with_fuel(total_weight, 5);
            assert(entries@.subrange(1, 4).subrange(1, 3) =~= entries@.subrange(2, 4));
            assert(entries@.subrange(2, 4).subrange(1, 2) =~= entries@.subrange(3, 4));
            assert(entries@.subrange(3, 4).subrange(1, 1) =~= Seq::<(OpKind, u64)>::empty());
        }
        Mixture { entries }
    }

    /// The 80/20 read-write mixture with the write share split uniformly over
    /// the four write categories: every category ends up at one fifth.
    pub fn mixed_read_write() -> (r: Mixture)
        ensures
            r.well_formed(),
            r.entries@ =~= seq![
                (OpKind::InsertBlock, 200_000u64),
                (OpKind::InsertTransaction, 200_000u64),
                (OpKind::InsertTransfer, 200_000u64),
                (OpKind::InsertPool, 200_000u64),
                (OpKind::ReadRandomRow, 200_000u64),
            ],
    {
        let entries: Vec<(OpKind, u64)> = vec![
            (OpKind::InsertBlock, 200_000u64),
            (OpKind::InsertTransaction, 200_000u64),
            (OpKind::InsertTransfer, 200_000u64),
            (OpKind::InsertPool, 200_000u64),
            (OpKind::ReadRandomRow, 200_000u64),
        ];
        proof {
            reveal_with_fuel(total_weight, 6);
            assert(entries@.subrange(1, 5).subrange(1, 4) =~= entries@.subrange(2, 5));
            assert(entries@.subrange(2, 5).subrange(1, 3) =~= entries@.subrange(3, 5));
            assert(entries@.subrange(3, 5).subrange(1, 2) =~= entries@.subrange(4, 5));
            assert(entries@.subrange(4, 5).subrange(1, 1) =~= Seq::<(OpKind, u64)>::empty());
        }
        Mixture { entries }
    }
}

/// Resolve a draw `u` in `0 .. WEIGHT_SCALE` against the mixture.
pub fn resolve(m: &Mixture, u: u64) -> (r: OpKind)
    requires
        m.well_formed(),
        u < WEIGHT_SCALE,
    ensures
        r == resolve_spec(m.entries@, u as int),
{
    let n = m.entries.len();
    let mut i: usize = 0;
    let mut rem: u64 = u;
    proof {
        assert(m.entries@.subrange(0, n as int) =~= m.entries@);
    }
    loop
        invariant
            n == m.entries@.len(),
            i < n,
            rem < total_weight(m.entries@.subrange(i as int, n as int)),
            resolve_spec(m.entries@, u as int) == resolve_spec(
                m.entries@.subrange(i as int, n as int),
                rem as int,
            ),
        decreases n - i,
    {
        proof {
            let suffix = m.entries@.subrange(i as int, n as int);
            assert(suffix[0] == m.entries@[i as int]);
            if i + 1 < n {
                assert(suffix.subrange(1, suffix.len() as int) =~= m.entries@.subrange(
                    i as int + 1,
                    n as int,
                ));
            }
        }
        if i + 1 == n || rem < m.entries[i].1 {
            return m.entries[i].0;
        }
        rem = rem - m.entries[i].1;
        i = i + 1;
        proof {
            lemma_total_weight_nonneg(m.entries@.subrange(i as int, n as int));
        }
    }
}

/// Draw one operation tag from the mixture: one uniform draw in
/// `0 .. WEIGHT_SCALE`, resolved against the cumulative boundaries.
pub fn next_operation(m: &Mixture, rng: &mut SeededRng) -> (r: OpKind)
    requires
        m.well_formed(),
    ensures
        final (rng).state == rng_step(old(rng).state),
        r == resolve_spec(m.entries@, (rng_step(old(rng).state) % WEIGHT_SCALE) as int),
{
    let u = rng.next_below(WEIGHT_SCALE);
    resolve(m, u)
}

/// The operation sequence that a mixture, a starting generator state, and a
/// length determine.
pub open spec fn op_sequence(entries: Seq<(OpKind, u64)>, state: u64, n: nat) -> Seq<OpKind>
    decreases n,
{
    if n == 0 {
        Seq::empty()
    } else {
        let s1 = rng_step(state);
        seq![resolve_spec(entries, (s1 % WEIGHT_SCALE) as int)] + op_sequence(
            entries,
            s1,
            (n - 1) as nat,
        )
    }
}

/// Generate a whole operation sequence.
pub fn generate_operations(m: &Mixture, rng: &mut SeededRng, n: usize) -> (r: Vec<OpKind>)
    requires
        m.well_formed(),
    ensures
        r@ == op_sequence(m.entries@, old(rng).state, n as nat),
        r@.len() == n,
        final (rng).state == rng_iter(old(rng).state, n as nat),
{
    let mut r: Vec<OpKind> = Vec::new();
    let mut i: usize = 0;
    let ghost start = rng.state;
    while i < n
        invariant
            m.well_formed(),
            i <= n,
            r@.len() == i,
            rng.state == rng_iter(start, i as nat),
            op_sequence(m.entries@, start, n as nat) == r@ + op_sequence(
                m.entries@,
                rng.state,
                (n - i) as nat,
            ),
        decreases n - i,
    {
        let ghost pre = rng.state;
        let op = next_operation(m, rng);
        r.push(op);
        i = i + 1;
        proof {
            let tail = op_sequence(m.entries@, pre, (n - i + 1) as nat);
            assert(tail == seq![op] + op_sequence(m.entries@, rng.state, (n - i) as nat));
            assert(r@ + op_sequence(m.entries@, rng.state, (n - i) as nat) =~= r@.subrange(
                0,
                i - 1,
            ) + tail);
            assert(r@.subrange(0, i - 1) + tail =~= op_sequence(m.entries@, start, n as nat));
        }
    }
    proof {
        assert(op_sequence(m.entries@, rng.state, 0) =~= Seq::<OpKind>::empty());
        assert(r@ =~= r@ + Seq::<OpKind>::empty());
    }
    r
}

/// Law: generation is deterministic — the mixture, the seed state, and the
/// length determine the whole operation sequence, so repeated runs with the
/// same seed replay the identical sequence.
pub proof fn lemma_generation_deterministic(
    entries: Seq<(OpKind, u64)>,
    state: u64,
    n: nat,
    s1: Seq<OpKind>,
    s2: Seq<OpKind>,
)
    requires
        s1 == op_sequence(entries, state, n),
        s2 == op_sequence(entries, state, n),
    ensures
        s1 == s2,
{
}

} // verus!
