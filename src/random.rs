use vstd::prelude::*;
use rand::rngs::StdRng;

verus! {

/// rand's `StdRng`, carried through opaque: the generator that places grains.
#[verifier::external_type_specification]
#[verifier::external_body]
pub struct ExStdRng(StdRng);

/// Relies on rand's `SeedableRng::seed_from_u64`: a generator seeded from a
/// number, so that a run can be repeated.
#[verifier::external_body]
pub(crate) fn seeded_rng(seed: u64) -> StdRng {
    <StdRng as rand::SeedableRng>::seed_from_u64(seed)
}

/// Relies on rand's `Rng::gen_range` over `low..high`: a value drawn from the
/// half-open range, which it panics on only when the range is empty.
#[verifier::external_body]
pub(crate) fn draw_below(rng: &mut StdRng, low: usize, high: usize) -> (r: usize)
    requires
        low < high,
    ensures
        low <= r < high,
{
    rand::Rng::gen_range(rng, low..high)
}

} // verus!
