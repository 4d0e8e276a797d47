use vstd::prelude::*;
use crate::types::Card;
use rand::Rng;
use rand::seq::SliceRandom;

verus! {

#[verifier::external_type_specification]
#[verifier::external_body]
pub struct ExStdRng(rand::rngs::StdRng);

/// Relies on rand's `SeedableRng::seed_from_u64`: builds a generator from a seed.
/// Nothing is assumed of the stream it produces.
#[verifier::external_body]
pub fn seed_rng(seed: u64) -> rand::rngs::StdRng {
    <rand::rngs::StdRng as rand::SeedableRng>::seed_from_u64(seed)
}

/// Relies on rand's `Rng::gen_range`: the result of sampling `0..n` lies below `n`.
#[verifier::external_body]
pub fn rand_index(rng: &mut rand::rngs::StdRng, n: usize) -> (r: usize)
    requires
        n > 0,
    ensures
        r < n,
{
    rng.gen_range(0..n)
}

/// Relies on rand's `SliceRandom::shuffle`: it permutes the slice in place by
/// swaps, so the cards afterwards are the same cards rearranged; in
/// particular their printed identities, taken as a bag, do not change.
#[verifier::external_body]
pub(crate) fn shuffle_cards(rng: &mut rand::rngs::StdRng, cards: &mut Vec<Card>)
    ensures
        final(cards)@.to_multiset() == old(cards)@.to_multiset(),
        final(cards)@.len() == old(cards)@.len(),
        final(cards)@.map_values(|c: Card| c@).to_multiset() == old(cards)@.map_values(
            |c: Card| c@,
        ).to_multiset(),
{
    cards.as_mut_slice().shuffle(rng)
}

} // verus!
