use vstd::prelude::*;

use rand::rngs::StdRng;
use rand::seq::SliceRandom;
use rand::Rng;
use rand::SeedableRng;

use crate::models::{Card, EnergyType};

verus! {

/// The seedable random number generator of the `rand` crate.
#[verifier::external_type_specification]
#[verifier::external_body]
pub struct ExStdRng(StdRng);

/// `StdRng::seed_from_u64`: a generator seeded with `seed`. Nothing is stated
/// of the generator, which is opaque.
#[verifier::external_body]
pub(crate) fn seeded_rng(seed: u64) -> StdRng {
    StdRng::seed_from_u64(seed)
}

/// `Rng::gen_range(0..n)`: a number in `0..n`, drawn from `rng`. `gen_range`
/// panics on an empty range, hence `n > 0`. Which number comes out rests on
/// the generator and is not stated.
#[verifier::external_body]
pub(crate) fn gen_index(rng: &mut StdRng, n: usize) -> (r: usize)
    requires
        n > 0,
    ensures
        r < n,
{
    rng.gen_range(0..n)
}

/// `SliceRandom::shuffle` on a vector of cards: the Fisher-Yates shuffle swaps
/// elements in place, so the result is a permutation of the input. Which
/// permutation rests on the generator and is not stated.
#[verifier::external_body]
pub(crate) fn shuffle_cards(cards: &mut Vec<Card>, rng: &mut StdRng)
    ensures
        final(cards)@.len() == old(cards)@.len(),
        final(cards)@.to_multiset() == old(cards)@.to_multiset(),
{
    cards.shuffle(rng)
}

/// `SliceRandom::choose` with `rand::thread_rng()`: `None` on an empty slice,
/// else one of its elements. Which one rests on the thread's generator and is
/// not stated.
#[verifier::external_body]
pub(crate) fn choose_energy(energies: &Vec<EnergyType>) -> (r: Option<EnergyType>)
    ensures
        r is None <==> energies@.len() == 0,
        r matches Some(e) ==> energies@.contains(e),
{
    energies.choose(&mut rand::thread_rng()).copied()
}

} // verus!
