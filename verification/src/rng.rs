use vstd::prelude::*;

verus! {

/// A zero seed would leave the xorshift generator at zero forever, so it is
/// replaced by this fixed odd constant.
pub const FALLBACK_SEED: u64 = 0x9E37_79B9_7F4A_7C15;

/// One xorshift step. The update is a bijection on the nonzero 64-bit values,
/// so a nonzero state never collapses to zero.
pub open spec fn rng_step(s: u64) -> u64 {
    let a = s ^ (s << 13u64);
    let b = a ^ (a >> 7u64);
    b ^ (b << 17u64)
}

/// The state after `n` xorshift steps from `s`.
pub open spec fn rng_iter(s: u64, n: nat) -> u64
    decreases n,
{
    if n == 0 {
        s
    } else {
        rng_step(rng_iter(s, (n - 1) as nat))
    }
}

/// Deterministic pseudo-random generator (xorshift64). Every randomized part
/// of the harness draws from one of these, so a whole run is reproducible
/// from its seed.
#[derive(Debug, Clone, Copy, PartialEq, Eq, Structural)]
pub struct SeededRng {
    pub state: u64,
}

impl SeededRng {
    pub fn new(seed: u64) -> (r: SeededRng)
        ensures
            r.state == if seed == 0 { FALLBACK_SEED } else { seed },
            r.state != 0,
    {
        if seed == 0 {
            SeededRng { state: FALLBACK_SEED }
        } else {
            SeededRng { state: seed }
        }
    }

    /// Draw one value uniformly from `0 .. bound`.
    pub fn next_below(&mut self, bound: u64) -> (r: u64)
        requires
            bound >= 1,
        ensures
            final(self).state == rng_step(old(self).state),
            r == rng_step(old(self).state) % bound,
            r < bound,
    {
        let s0 = self.state;
        let a = s0 ^ (s0 << 13u64);
        let b = a ^ (a >> 7u64);
        let c = b ^ (b << 17u64);
        self.state = c;
        c % bound
    }
}

} // verus!
