//! The core context: one seeded pseudo-random generator, shared in a single
//! sequential order by everything that draws from it.

use rand::rngs::StdRng;
use vstd::prelude::*;

verus! {

#[verifier::external_type_specification]
#[verifier::external_body]
pub struct ExStdRng(StdRng);

/// The generator that `StdRng::seed_from_u64` builds from a seed.
pub uninterp spec fn seeded_generator(seed: u64) -> StdRng;

/// What filling a buffer of `len` bytes from generator `g` yields: the bytes,
/// and the generator's state afterwards.
pub uninterp spec fn fill_from(g: StdRng, len: nat) -> (Seq<u8>, StdRng);

/// Relies on `SeedableRng::seed_from_u64` for `StdRng`, which is deterministic:
/// the generator it builds depends on the seed alone.
#[verifier::external_body]
fn generator_from_seed(seed: u64) -> (r: StdRng)
    ensures
        r == seeded_generator(seed),
{
    <StdRng as rand::SeedableRng>::seed_from_u64(seed)
}

/// Relies on `RngCore::fill_bytes` for `StdRng`: it fills the whole buffer, and
/// the bytes and the next state depend on the generator's state and the length.
#[verifier::external_body]
pub(crate) fn fill_bytes(g: &mut StdRng, len: usize) -> (r: Vec<u8>)
    ensures
        r@.len() == len,
        r@ == fill_from(*old(g), len as nat).0,
        *final(g) == fill_from(*old(g), len as nat).1,
{
    let mut buf = vec![0u8; len];
    rand::RngCore::fill_bytes(g, &mut buf);
    buf
}

/// State shared by every kind of test: the run's pseudo-random generator.
pub struct CoreContext {
    rng: StdRng,
}

impl CoreContext {
    /// The generator's current state.
    pub closed spec fn generator(&self) -> StdRng {
        self.rng
    }

    /// A context that draws from the given generator.
    pub fn from_rng(rng: StdRng) -> (r: CoreContext)
        ensures
            r.generator() == rng,
    {
        CoreContext { rng }
    }

    /// A context whose generator is seeded with `seed`: the same seed gives
    /// the same stream.
    pub fn from_seed(seed: u64) -> (r: CoreContext)
        ensures
            r.generator() == seeded_generator(seed),
    {
        CoreContext { rng: generator_from_seed(seed) }
    }

    /// The context's own generator, not a copy: what the caller draws from it
    /// moves this context's stream on.
    pub fn rng(&mut self) -> (r: &mut StdRng)
        ensures
            *r == old(self).generator(),
            final(self).generator() == *final(r),
    {
        &mut self.rng
    }
}

} // verus!
