//! Procedural asteroid belt: the deterministic generator and the names of the
//! generated bodies.
//!
//! The generator is a 64-bit linear congruential generator; the program turns
//! each draw into a number in `[0, 1)` and places the asteroids.

use vstd::prelude::*;

use crate::text::{decimal_spec, push_decimal, push_zero_padded, string_of, zero_pad};

verus! {

/// Multiplier of the generator.
pub const LCG_MULTIPLIER: u64 = 6364136223846793005;

/// One step of the generator: `state * 6364136223846793005 + 1`, modulo 2^64.
pub open spec fn lcg_step(state: u64) -> u64 {
    ((state as int * LCG_MULTIPLIER as int + 1) % 0x1_0000_0000_0000_0000) as u64
}

/// The draw taken from a state: bits 11 to 42.
pub open spec fn draw_bits(state: u64) -> u32 {
    ((state / 2048) % 0x1_0000_0000) as u32
}

/// Deterministic pseudo-random generator for belt generation.
#[derive(Debug)]
pub struct Rng {
    state: u64,
}

impl Rng {
    pub closed spec fn state_spec(&self) -> u64 {
        self.state
    }

    /// A generator seeded with `seed`.
    pub fn new(seed: u64) -> (r: Self)
        ensures
            r.state_spec() == seed,
    {
        Rng { state: seed }
    }

    /// Advances the generator one step and returns 32 bits of the new state.
    pub fn next_bits(&mut self) -> (bits: u32)
        ensures
            final(self).state_spec() == lcg_step(old(self).state_spec()),
            bits == draw_bits(final(self).state_spec()),
    {
        let s = self.state;
        let m = s.wrapping_mul(LCG_MULTIPLIER);
        let next = m.wrapping_add(1);
        proof {
            let p = s as int * LCG_MULTIPLIER as int;
            let n = 0x1_0000_0000_0000_0000int;
            assert(m as int == p % n);
            vstd::arithmetic::div_mod::lemma_add_mod_noop_right(p % n, 1, n);
            vstd::arithmetic::div_mod::lemma_add_mod_noop(p, 1, n);
            assert(1int % n == 1);
            assert(next as int == (m as int + 1) % n);
        }
        self.state = next;
        let bits = (next >> 11) as u32;
        assert(bits == draw_bits(next)) by (bit_vector)
            requires
                bits == (next >> 11u64) as u32,
        ;
        bits
    }
}

/// The id of the `i`-th generated asteroid: `ast_` and `i` zero-padded to four digits.
pub fn asteroid_id(i: u32) -> (id: String)
    ensures
        id@ == "ast_"@ + zero_pad(decimal_spec(i as nat), 4),
{
    let mut id = string_of("ast_");
    push_zero_padded(&mut id, i as u64, 4);
    id
}

/// The display name of the `i`-th generated asteroid.
pub fn asteroid_name(i: u32) -> (name: String)
    ensures
        name@ == "Asteroid "@ + decimal_spec(i as nat),
{
    let mut name = string_of("Asteroid ");
    push_decimal(&mut name, i as u64);
    name
}

} // verus!
