//! Deterministic pseudo-random sequence.
//!
//! Every draw consumed by the builder comes from one of these generators, so
//! that a fixed seed always expands into the same planet list, on every run
//! and on every machine. A draw in the unit interval is represented as its
//! high 32 bits of state, read as the binary fraction `k / 2^32` in `[0, 1)`;
//! this keeps all downstream threshold comparisons exact integer arithmetic.

use vstd::prelude::*;

verus! {

/// One step of the xorshift64 state transition.
pub open spec fn next_state(s: u64) -> u64 {
    let a = s ^ (s << 13);
    let b = a ^ (a >> 7);
    b ^ (b << 17)
}

/// The unit-interval draw carried by a state: its high 32 bits, read as the
/// binary fraction `unit_bits(s) / 2^32` in `[0, 1)`.
pub open spec fn unit_bits(s: u64) -> u32 {
    (s >> 32) as u32
}

/// Seeded deterministic generator. The whole value is its current state,
/// exposed as the view; each draw advances the state exactly once.
pub struct DetRandom {
    state: u64,
}

impl View for DetRandom {
    type V = u64;

    closed spec fn view(&self) -> u64 {
        self.state
    }
}

impl DetRandom {
    /// A generator whose state is exactly the given seed.
    pub fn new(seed: u64) -> (r: Self)
        ensures
            r@ == seed,
    {
        DetRandom { state: seed }
    }

    /// Advance once and hand out a fresh integer, usable to seed a further
    /// generator or an external detail generator.
    pub fn next_seed(&mut self) -> (r: u64)
        ensures
            final(self)@ == next_state(old(self)@),
            r == final(self)@,
    {
        let s = self.state;
        let a = s ^ (s << 13u64);
        let b = a ^ (a >> 7u64);
        let c = b ^ (b << 17u64);
        self.state = c;
        c
    }

    /// Advance once and hand out a draw in the unit interval, as the binary
    /// fraction `r / 2^32`.
    pub fn next_unit(&mut self) -> (r: u32)
        ensures
            final(self)@ == next_state(old(self)@),
            r == unit_bits(final(self)@),
    {
        let x = self.next_seed();
        let h = x >> 32u64;
        assert(h <= 0xFFFF_FFFF) by (bit_vector)
            requires
                h == x >> 32u64,
        ;
        h as u32
    }
}

} // verus!
