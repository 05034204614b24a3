//! Randomness. Every draw comes from `rand`'s thread-local generator or
//! from a seeded `StdRng`; nothing about which value is drawn is promised
//! beyond the range it falls in.
use vstd::prelude::*;
use rand::Rng;

verus! {

/// Calls `rand::Rng::choose` on the thread-local generator. The source
/// returns `None` exactly for an empty slice, and otherwise a reference to
/// `values[i]` for an index `i` drawn below the length; which index is left
/// unsaid.
#[verifier::external_body]
pub fn pick<T: Copy>(values: &[T]) -> (r: Option<T>)
    ensures
        values@.len() == 0 <==> r is None,
        r matches Some(v) ==> values@.contains(v),
{
    rand::thread_rng().choose(values).copied()
}

/// Calls `rand::Rng::gen_range(low, high)` on the thread-local generator.
/// The source asserts `low < high` and samples from `[low, high)`; the
/// value drawn is left unsaid.
#[verifier::external_body]
pub fn gen_range(low: usize, high: usize) -> (r: usize)
    requires
        low < high,
    ensures
        low <= r < high,
{
    rand::thread_rng().gen_range(low, high)
}

#[verifier::external_type_specification]
#[verifier::external_body]
pub struct ExStdRng(rand::StdRng);

/// Calls `<rand::StdRng as SeedableRng<&[usize]>>::from_seed`. The
/// generator is deterministic for a seed on one machine, but which
/// generator `StdRng` is depends on the machine's word size; nothing is
/// said of its state.
#[verifier::external_body]
pub fn std_rng_from_seed(seed: &[usize]) -> rand::StdRng {
    rand::SeedableRng::from_seed(seed)
}

/// Calls `rand::Rng::gen_range(low, high)` on a seeded `StdRng`. The source
/// asserts `low < high` and samples from `[low, high)`.
#[verifier::external_body]
pub fn std_rng_gen_range(rng: &mut rand::StdRng, low: usize, high: usize) -> (r: usize)
    requires
        low < high,
    ensures
        low <= r < high,
{
    rng.gen_range(low, high)
}

} // verus!
