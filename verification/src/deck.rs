use vstd::prelude::*;
use crate::rng::{rand_index, shuffle_cards};
use crate::types::{clone_cards, Card, EnergyType};

verus! {

/// Whether the card is a Basic Pokemon, and so may open a game.
pub fn is_basic(card: &Card) -> (r: bool)
    ensures
        r == card.spec_is_basic(),
{
    card.is_basic()
}

/// Whether any of the first `n` cards of `s` is a Basic Pokemon.
pub open spec fn has_basic_among(s: Seq<Card>, n: int) -> bool {
    exists|i: int| 0 <= i < n && i < s.len() && (#[trigger] s[i]).spec_is_basic()
}

/// Mathematical image of a [`Deck`].
#[verifier::ext_equal]
pub ghost struct DeckV {
    pub cards: Seq<Card>,
    pub energy_types: Seq<EnergyType>,
}

/// A deck: its cards in order (the top is index 0) and the energy types it
/// declares for energy generation.
#[derive(Debug, PartialEq, Eq, Hash)]
pub struct Deck {
    pub cards: Vec<Card>,
    pub energy_types: Vec<EnergyType>,
}

impl View for Deck {
    type V = DeckV;

    open spec fn view(&self) -> DeckV {
        DeckV { cards: self.cards@, energy_types: self.energy_types@ }
    }
}

impl Clone for Deck {
    fn clone(&self) -> (r: Self)
        ensures
            r.cards@.map_values(|c: Card| c@) == self.cards@.map_values(|c: Card| c@),
            r.cards@.len() == self.cards@.len(),
            r.energy_types@ == self.energy_types@,
    {
        let r = Deck { cards: clone_cards(&self.cards), energy_types: self.energy_types.clone() };
        proof {
            assert(r.energy_types@ =~= self.energy_types@);
        }
        r
    }
}

impl Default for Deck {
    /// An empty deck.
    fn default() -> (r: Self)
        ensures
            r.cards@.len() == 0,
            r.energy_types@.len() == 0,
    {
        Deck { cards: Vec::new(), energy_types: Vec::new() }
    }
}

impl Deck {
    /// Removes and returns the top card, if any.
    pub fn draw(&mut self) -> (r: Option<Card>)
        ensures
            old(self).cards@.len() == 0 ==> r is None && *final(self) == *old(self),
            old(self).cards@.len() > 0 ==> r == Some(old(self).cards@[0]) && final(self).cards@
                == old(self).cards@.drop_first() && final(self).energy_types == old(
                self,
            ).energy_types,
    {
        if self.cards.len() == 0 {
            None
        } else {
            let c = self.cards.remove(0);
            proof {
                assert(self.cards@ =~= old(self).cards@.drop_first());
            }
            Some(c)
        }
    }

    /// Rearranges the cards at random. With `ensure_basic`, and as long as the
    /// deck holds a Basic Pokemon at all, one ends up among the top five cards,
    /// so that an opening hand of five cards contains a Basic.
    pub fn shuffle(&mut self, ensure_basic: bool, rng: &mut rand::rngs::StdRng)
        ensures
            final(self).cards@.to_multiset() == old(self).cards@.to_multiset(),
            final(self).cards@.len() == old(self).cards@.len(),
            final(self).cards@.map_values(|c: Card| c@).to_multiset() == old(
                self,
            ).cards@.map_values(|c: Card| c@).to_multiset(),
            final(self).energy_types == old(self).energy_types,
            ensure_basic && has_basic_among(old(self).cards@, old(self).cards@.len() as int)
                ==> has_basic_among(final(self).cards@, 5),
    {
        broadcast use vstd::seq_lib::group_to_multiset_ensures, vstd::seq_lib::to_multiset_insert;

        let ghost orig = self.cards@;
        shuffle_cards(rng, &mut self.cards);
        proof {
            if has_basic_among(orig, orig.len() as int) {
                let i = choose|i: int| 0 <= i < orig.len() && (#[trigger] orig[i]).spec_is_basic();
                let c = orig[i];
                assert(orig.to_multiset().count(c) > 0);
                assert(self.cards@.to_multiset().count(c) > 0);
                assert(self.cards@.contains(c));
                let j = choose|j: int| 0 <= j < self.cards@.len() && self.cards@[j] == c;
                assert(has_basic_among(self.cards@, self.cards@.len() as int));
            }
        }
        if !ensure_basic {
            return ;
        }
        // Find the first Basic anywhere; if none sits among the top five
        // slots, one is moved there.
        let ghost shuffled = self.cards@;
        let len = self.cards.len();
        let top = if len < 5 {
            len
        } else {
            5
        };
        let mut basic_at: Option<usize> = None;
        let mut i: usize = 0;
        while i < len
            invariant
                len == self.cards@.len(),
                self.cards@ == shuffled,
                i <= len,
                match basic_at {
                    Some(b) => b < len && self.cards@[b as int].spec_is_basic(),
                    None => forall|j: int|
                        0 <= j < i ==> !(#[trigger] self.cards@[j]).spec_is_basic(),
                },
            decreases len - i,
        {
            if basic_at.is_none() && is_basic(&self.cards[i]) {
                basic_at = Some(i);
            }
            i += 1;
        }
        match basic_at {
            None => {
                proof {
                    if has_basic_among(orig, orig.len() as int) {
                        // A Basic survives every shuffle, so the scan cannot
                        // have missed it.
                        assert(has_basic_among(self.cards@, len as int));
                        assert(false);
                    }
                }
            },
            Some(b) => {
                if b < top {
                    proof {
                        assert(has_basic_among(self.cards@, 5));
                    }
                } else {
                    // Move it to a random slot in the opening window.
                    let t = rand_index(rng, top);
                    let ghost before = self.cards@;
                    let card = self.cards.remove(b);
                    self.cards.insert(t, card);
                    proof {
                        assert(self.cards@.to_multiset() =~= before.to_multiset());
                        assert(self.cards@[t as int].spec_is_basic());
                        assert(has_basic_among(self.cards@, 5));
                        let f = before.map_values(|c: Card| c@);
                        let g = self.cards@.map_values(|c: Card| c@);
                        assert(g =~= f.remove(b as int).insert(t as int, card@));
                        assert(f[b as int] == card@);
                        assert(f.remove(b as int).to_multiset() == f.to_multiset().remove(
                            card@,
                        ));
                        assert(g.to_multiset() == f.to_multiset().remove(card@).insert(card@));
                        assert(f.to_multiset().count(card@) > 0);
                        assert(g.to_multiset() =~= f.to_multiset());
                    }
                }
            },
        }
    }
}

} // verus!
