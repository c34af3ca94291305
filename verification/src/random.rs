//! The seeded generator behind every pseudo-random effect.

use vstd::prelude::*;

verus! {

/// `rand::rngs::StdRng`, carried through as an opaque value.
#[verifier::external_type_specification]
#[verifier::external_body]
pub struct ExStdRng(rand::rngs::StdRng);

/// The internal state of a generator, as bytes.
pub uninterp spec fn rng_state(r: rand::rngs::StdRng) -> Seq<u8>;

/// The state that `seed_from_u64` gives a generator for `seed`, in the
/// version of `rand` that the crate is built with.
pub uninterp spec fn seeded_state(seed: u64) -> Seq<u8>;

/// The number that a generator in the state `state` draws from `0 .. bound`,
/// and the state that it is in afterwards.
pub uninterp spec fn draw_below(state: Seq<u8>, bound: u32) -> (u32, Seq<u8>);

/// `rand::SeedableRng::seed_from_u64` for `StdRng`: the generator's state
/// depends on the seed alone.
#[verifier::external_body]
fn std_rng_seed_from_u64(seed: u64) -> (r: rand::rngs::StdRng)
    ensures
        rng_state(r) == seeded_state(seed),
{
    rand::SeedableRng::seed_from_u64(seed)
}

/// `rand::Rng::gen_range` on `0 .. bound` for `u32`: the number drawn lies in
/// the range, and it and the state afterwards depend on the state before and
/// on the bound alone. The call panics on an empty range, which `requires`
/// rules out.
#[verifier::external_body]
fn std_rng_gen_range(r: &mut rand::rngs::StdRng, bound: u32) -> (v: u32)
    requires
        bound > 0,
    ensures
        v < bound,
        v == draw_below(rng_state(*old(r)), bound).0,
        rng_state(*final(r)) == draw_below(rng_state(*old(r)), bound).1,
{
    rand::Rng::gen_range(r, 0..bound)
}

/// A deterministic generator of pseudo-random numbers, seeded per use.
pub struct SeededRng {
    inner: rand::rngs::StdRng,
}

impl SeededRng {
    /// The state of the generator.
    pub closed spec fn state(&self) -> Seq<u8> {
        rng_state(self.inner)
    }

    /// A generator whose stream depends on `seed` alone.
    pub fn new(seed: u64) -> (r: SeededRng)
        ensures
            r.state() == seeded_state(seed),
    {
        SeededRng { inner: std_rng_seed_from_u64(seed) }
    }

    /// The next number below `bound`.
    pub fn below(&mut self, bound: u32) -> (v: u32)
        requires
            bound > 0,
        ensures
            v < bound,
            v == draw_below(old(self).state(), bound).0,
            final(self).state() == draw_below(old(self).state(), bound).1,
    {
        std_rng_gen_range(&mut self.inner, bound)
    }
}

} // verus!
