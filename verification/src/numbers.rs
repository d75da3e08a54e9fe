//! Integer helpers of the script mode: a small deterministic pseudo-random
//! generator and the functions that draw from it.
//!
//! The generator is a 64-bit linear congruential generator; each draw
//! first advances the state and then reads its upper 32 bits.
use vstd::prelude::*;

verus! {

/// Multiplier of the linear congruential generator.
pub const LCG_MULTIPLIER: u64 = 6364136223846793005;

/// State that a fresh generator starts from.
pub const LCG_SEED: u64 = 0x1234_5678_9ABC_DEF0;

/// The state that follows `s`: `s * LCG_MULTIPLIER + 1`, modulo 2^64.
pub open spec fn lcg_step(s: u64) -> u64 {
    ((s * LCG_MULTIPLIER + 1) % 0x1_0000_0000_0000_0000) as u64
}

/// The number that a state yields: its upper 32 bits.
pub open spec fn lcg_output(s: u64) -> nat {
    (s / 0x1_0000_0000) as nat
}

/// A pseudo-random generator, held by its caller.
pub struct ScriptRng {
    state: u64,
}

impl ScriptRng {
    /// The current state.
    pub closed spec fn state(&self) -> u64 {
        self.state
    }

    /// A generator in its initial state.
    pub fn new() -> (r: ScriptRng)
        ensures
            r.state() == LCG_SEED,
    {
        ScriptRng { state: LCG_SEED }
    }

    /// Advances the state by one step and returns the output of the new state.
    pub fn next_output(&mut self) -> (out: usize)
        ensures
            final(self).state() == lcg_step(old(self).state()),
            out as nat == lcg_output(final(self).state()),
            out < 0x1_0000_0000,
    {
        let s: u64 = self.state.wrapping_mul(LCG_MULTIPLIER).wrapping_add(1);
        proof {
            let x: u64 = self.state;
            let p: int = x * LCG_MULTIPLIER;
            assert(p >= 0) by (nonlinear_arith)
                requires p == x * LCG_MULTIPLIER;
            assert((p % 0x1_0000_0000_0000_0000 + 1) % 0x1_0000_0000_0000_0000
                == (p + 1) % 0x1_0000_0000_0000_0000) by (nonlinear_arith)
                requires p >= 0;
        }
        self.state = s;
        let hi: u64 = s >> 32;
        assert(hi == s / 0x1_0000_0000 && hi < 0x1_0000_0000) by (bit_vector)
            requires hi == s >> 32;
        hi as usize
    }
}

/// A pseudo-random index below `bound`: the generator's next output modulo `bound`.
pub fn rand_index(rng: &mut ScriptRng, bound: usize) -> (r: usize)
    requires
        bound > 0,
    ensures
        final(rng).state() == lcg_step(old(rng).state()),
        r == lcg_output(final(rng).state()) % (bound as nat),
        r < bound,
{
    let out: usize = rng.next_output();
    out % bound
}

/// A pseudo-random integer in `from..to`.
pub fn randint(rng: &mut ScriptRng, from: usize, to: usize) -> (r: usize)
    requires
        from < to,
    ensures
        final(rng).state() == lcg_step(old(rng).state()),
        r == from + lcg_output(final(rng).state()) % ((to - from) as nat),
        from <= r < to,
{
    let i: usize = rand_index(rng, to - from);
    i + from
}


/// The generator multiplies by 6364136223846793005 and adds 1, modulo 2^64,
/// starting from 0x123456789ABCDEF0, and yields the upper 32 bits of a state.
pub proof fn lemma_generator_constants(s: u64)
    ensures
        LCG_MULTIPLIER == 6364136223846793005u64,
        LCG_SEED == 0x1234_5678_9ABC_DEF0u64,
        lcg_step(s) == (s * 6364136223846793005 + 1) % 0x1_0000_0000_0000_0000,
        lcg_output(s) == s / 0x1_0000_0000,
{
}

} // verus!
