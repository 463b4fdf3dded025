use vstd::prelude::*;

verus! {

/// A throughput measurement, kept as the exact rational
/// `ops / elapsed_micros` rather than as a lossy quotient. A rate built from
/// at least one operation and a nonzero elapsed time is strictly positive;
/// a run of zero operations has the defined — not computed — rate zero.
#[derive(Debug, Clone, Copy, PartialEq, Eq, Structural)]
pub struct Rate {
    pub ops: u64,
    pub elapsed_micros: u64,
}

/// What [`Rate::new`] returns: zero operations collapse to the canonical
/// zero rate, anything else keeps numerator and denominator exactly.
pub open spec fn rate_of(ops: u64, elapsed_micros: u64) -> Rate {
    if ops == 0 {
        Rate { ops: 0, elapsed_micros: 0 }
    } else {
        Rate { ops, elapsed_micros }
    }
}

impl Rate {
    /// A positive rational: at least one operation over a nonzero time.
    pub open spec fn is_positive(self) -> bool {
        self.ops > 0 && self.elapsed_micros > 0
    }

    pub open spec fn is_zero(self) -> bool {
        self.ops == 0
    }

    /// The defined rate of a no-op run.
    pub fn zero() -> (r: Rate)
        ensures
            r == rate_of(0, 0),
            r.is_zero(),
    {
        Rate { ops: 0, elapsed_micros: 0 }
    }

    pub fn new(ops: u64, elapsed_micros: u64) -> (r: Rate)
        ensures
            r == rate_of(ops, elapsed_micros),
            ops == 0 ==> r.is_zero(),
            ops >= 1 && elapsed_micros > 0 ==> r.is_positive(),
    {
        if ops == 0 {
            Rate { ops: 0, elapsed_micros: 0 }
        } else {
            Rate { ops, elapsed_micros }
        }
    }

    /// The rate in thousandths of an operation per second, rounded down and
    /// saturating at `u64::MAX`. A zero rate reports zero.
    pub fn per_second_milli(&self) -> (r: u64)
        ensures
            self.elapsed_micros > 0 ==> ({
                let q = self.ops * 1_000_000_000 / (self.elapsed_micros as int);
                r == if q > u64::MAX { u64::MAX as int } else { q }
            }),
            self.elapsed_micros == 0 ==> r == 0,
            self.is_zero() ==> r == 0,
    {
        if self.elapsed_micros == 0 {
            return 0;
        }
        let num: u128 = (self.ops as u128) * 1_000_000_000u128;
        let q: u128 = num / (self.elapsed_micros as u128);
        if q > u64::MAX as u128 {
            u64::MAX
        } else {
            q as u64
        }
    }
}

} // verus!
