//! A seeded, deterministic scalar field over the integer lattice.
//!
//! The generator is a pure function of its seed and the queried position:
//! the same seed and the same point give bit-identical samples, across
//! calls, instances and runs. The field is synthesized by an integer
//! bit-mixing function, so it needs no state beyond the seed and can be
//! shared read-only.

use vstd::prelude::*;

verus! {

/// A seeded noise source. Immutable after construction; sampling never
/// changes it.
#[derive(Clone, Copy, Debug, PartialEq, Eq, Structural)]
pub struct RandomGenerator {
    seed: u64,
}

/// One avalanche pass: xor-shifts interleaved with odd-constant
/// multiplications, spreading every input bit over the whole word.
pub closed spec fn mix64(z: u64) -> u64 {
    let z1 = (z ^ (z >> 30)).wrapping_mul(0xBF58_476D_1CE4_E5B9);
    let z2 = (z1 ^ (z1 >> 27)).wrapping_mul(0x94D0_49BB_1331_11EB);
    z2 ^ (z2 >> 31)
}

/// The field's value for a seed and a lattice point: the seed and the three
/// coordinates folded through four avalanche passes. A mathematical
/// function — no state, no ambient randomness — so the field is
/// deterministic by construction.
pub closed spec fn noise_at(seed: u64, x: u64, y: u64, z: u64) -> u64 {
    mix64(mix64(mix64(mix64(seed) ^ x) ^ y) ^ z)
}

impl RandomGenerator {
    /// The seed this generator was built with.
    pub closed spec fn seed_val(self) -> u64 {
        self.seed
    }

    /// Builds the field for a seed.
    pub fn new(seed: u64) -> (g: RandomGenerator)
        ensures
            g.seed_val() == seed,
    {
        RandomGenerator { seed }
    }

    /// Samples the field at a lattice point. The result is exactly
    /// `noise_at` of the seed and the point, and therefore repeatable.
    pub fn next(&self, x: u64, y: u64, z: u64) -> (s: u64)
        ensures
            s == noise_at(self.seed_val(), x, y, z),
    {
        let h = Self::mix(self.seed);
        let h = Self::mix(h ^ x);
        let h = Self::mix(h ^ y);
        Self::mix(h ^ z)
    }

    /// Executable avalanche pass, equal to `mix64`.
    fn mix(z: u64) -> (m: u64)
        ensures
            m == mix64(z),
    {
        let z1 = (z ^ (z >> 30)).wrapping_mul(0xBF58_476D_1CE4_E5B9);
        let z2 = (z1 ^ (z1 >> 27)).wrapping_mul(0x94D0_49BB_1331_11EB);
        z2 ^ (z2 >> 31)
    }
}

/// Determinism of the field: two generators built with the same seed return
/// bit-identical samples for the same point.
pub proof fn lemma_noise_deterministic(g1: RandomGenerator, g2: RandomGenerator, x: u64, y: u64, z: u64)
    requires
        g1.seed_val() == g2.seed_val(),
    ensures
        noise_at(g1.seed_val(), x, y, z) == noise_at(g2.seed_val(), x, y, z),
{
}

} // verus!
