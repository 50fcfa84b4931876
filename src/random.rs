use vstd::prelude::*;

verus! {

/// Denominator of the fixed-point fractions that stand for uniform draws in `[0, 1)`:
/// a draw `n` with `n < UNIT` stands for `n / UNIT`.
pub const UNIT: u32 = 16777216;

/// One xorshift64 step.
pub open spec fn next_state(s: u64) -> u64 {
    let a = s ^ (s << 13u64);
    let b = a ^ (a >> 7u64);
    b ^ (b << 17u64)
}

/// The draw made from a state: its top 24 bits.
pub open spec fn draw_of(s: u64) -> u32 {
    (s >> 40u64) as u32
}

/// The state after `k` draws from `s`.
pub open spec fn state_after(s: u64, k: nat) -> u64
    decreases k,
{
    if k == 0 {
        s
    } else {
        next_state(state_after(s, (k - 1) as nat))
    }
}

/// The `k`-th draw (counting from 0) made from state `s`.
pub open spec fn nth_draw(s: u64, k: nat) -> u32 {
    draw_of(state_after(s, k + 1))
}

/// A deterministic generator of uniform fractions in `[0, 1)`.
pub struct RandomGenerator {
    pub state: u64,
}

impl RandomGenerator {
    /// A generator seeded with `seed`; a zero seed, on which xorshift stays at zero,
    /// is replaced by one.
    pub fn new(seed: u64) -> (r: RandomGenerator)
        ensures
            r.state == (if seed == 0 { 1 } else { seed }),
    {
        RandomGenerator { state: if seed == 0 { 1 } else { seed } }
    }

    /// Advances the state and returns a fraction `n / UNIT` with `n < UNIT`.
    pub fn uniform(&mut self) -> (r: u32)
        ensures
            final(self).state == next_state(old(self).state),
            r == draw_of(final(self).state),
            r < UNIT,
    {
        let s = self.state;
        let a = s ^ (s << 13u64);
        let b = a ^ (a >> 7u64);
        let c = b ^ (b << 17u64);
        self.state = c;
        assert((c >> 40u64) < 0x1000000u64) by (bit_vector);
        (c >> 40u64) as u32
    }
}

pub proof fn lemma_draw_below_unit(s: u64)
    ensures
        draw_of(s) < UNIT,
{
    assert((s >> 40u64) < 0x1000000u64) by (bit_vector);
}

} // verus!
