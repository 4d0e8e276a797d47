use vstd::prelude::*;
use std::sync::Arc;
use crate::actions::SimpleAction;
use crate::deck::Deck;
use crate::rng::rand_index;
use crate::state::GameOutcome;
use crate::types::{Card, EnergyType, PlayedCard};

verus! {

/// The match snapshot arranged for cheap cloning: the large collections sit
/// behind shared-ownership pointers, so a clone costs a few reference counts
/// and pays for a copy only when a side is first written. Search agents
/// clone states constantly; this keeps that tractable.
#[derive(Debug, Clone, Hash, PartialEq, Eq)]
pub struct OptimizedState {
    pub winner: Option<GameOutcome>,
    pub points: Vec<u8>,
    pub turn_count: u8,
    pub current_player: usize,
    pub move_generation_stack: Arc<Vec<(usize, Vec<SimpleAction>)>>,
    pub current_energy: Option<EnergyType>,
    pub hands: Vec<Arc<Vec<Card>>>,
    pub decks: Vec<Arc<Deck>>,
    pub discard_piles: Vec<Arc<Vec<Card>>>,
    pub in_play_pokemon: Vec<Vec<Option<PlayedCard>>>,
    pub has_played_support: bool,
    pub has_retreated: bool,
    pub turn_effects: Arc<Vec<(u8, Vec<Card>)>>,
}

/// Relies on `Arc::make_mut`: it hands out a mutable borrow of the shared
/// value, first copying it when other owners exist, so the borrow seen here
/// starts at the old value and the pointer ends at whatever is written.
///
/// The first clause assumes the copy equals the original, which holds only
/// when `T::clone` preserves the value; this function therefore stays
/// private, and every instantiation in this file deep-copies plain data.
#[verifier::external_body]
fn arc_make_mut<T: Clone>(arc: &mut Arc<T>) -> (r: &mut T)
    ensures
        *r == *old(arc),
        *final(arc) == *final(r),
{
    Arc::make_mut(arc)
}

impl OptimizedState {
    /// The shape the snapshot keeps: two of each per-player collection.
    pub open spec fn wf(self) -> bool {
        &&& self.hands@.len() == 2
        &&& self.decks@.len() == 2
        &&& self.discard_piles@.len() == 2
        &&& self.in_play_pokemon@.len() == 2
        &&& forall|p: int| 0 <= p < 2 ==> (#[trigger] self.in_play_pokemon@[p])@.len() == 4
        &&& self.current_player < 2
        &&& self.points@.len() == 2
    }

    /// A fresh, empty snapshot over clones of the two decks.
    pub fn new(deck_a: &Deck, deck_b: &Deck) -> (r: OptimizedState)
        ensures
            r.wf(),
            r.winner is None,
            r.turn_count == 0,
            (*r.hands@[0])@.len() == 0 && (*r.hands@[1])@.len() == 0,
            (*r.decks@[0]).cards@.len() == deck_a.cards@.len(),
            (*r.decks@[1]).cards@.len() == deck_b.cards@.len(),
    {
        let mut hands: Vec<Arc<Vec<Card>>> = Vec::new();
        hands.push(Arc::new(Vec::new()));
        hands.push(Arc::new(Vec::new()));
        let mut decks: Vec<Arc<Deck>> = Vec::new();
        decks.push(Arc::new(deck_a.clone()));
        decks.push(Arc::new(deck_b.clone()));
        let mut discard_piles: Vec<Arc<Vec<Card>>> = Vec::new();
        discard_piles.push(Arc::new(Vec::new()));
        discard_piles.push(Arc::new(Vec::new()));
        let mut in_play_pokemon: Vec<Vec<Option<PlayedCard>>> = Vec::new();
        let mut row_a: Vec<Option<PlayedCard>> = Vec::new();
        row_a.push(None);
        row_a.push(None);
        row_a.push(None);
        row_a.push(None);
        let mut row_b: Vec<Option<PlayedCard>> = Vec::new();
        row_b.push(None);
        row_b.push(None);
        row_b.push(None);
        row_b.push(None);
        in_play_pokemon.push(row_a);
        in_play_pokemon.push(row_b);
        let mut points: Vec<u8> = Vec::new();
        points.push(0);
        points.push(0);
        OptimizedState {
            winner: None,
            points,
            turn_count: 0,
            current_player: 0,
            move_generation_stack: Arc::new(Vec::new()),
            current_energy: None,
            hands,
            decks,
            discard_piles,
            in_play_pokemon,
            has_played_support: false,
            has_retreated: false,
            turn_effects: Arc::new(Vec::new()),
        }
    }

    /// A writable borrow of one hand; a shared hand is copied first.
    pub fn hands_mut(&mut self, player: usize) -> (r: &mut Vec<Card>)
        requires
            old(self).wf(),
            player < 2,
        ensures
            *r == *old(self).hands@[player as int],
            final(self).hands@ == old(self).hands@.update(player as int, final(self).hands@[player as int]),
            *final(self).hands@[player as int] == *final(r),
            *final(self) == (OptimizedState { hands: final(self).hands, ..*old(self) }),
    {
        arc_make_mut(&mut self.hands[player])
    }

    /// A writable borrow of one deck; a shared deck is copied first.
    pub fn decks_mut(&mut self, player: usize) -> (r: &mut Deck)
        requires
            old(self).wf(),
            player < 2,
        ensures
            *r == *old(self).decks@[player as int],
            final(self).decks@ == old(self).decks@.update(player as int, final(self).decks@[player as int]),
            *final(self).decks@[player as int] == *final(r),
            *final(self) == (OptimizedState { decks: final(self).decks, ..*old(self) }),
    {
        arc_make_mut(&mut self.decks[player])
    }

    /// A writable borrow of one discard pile; a shared pile is copied first.
    pub fn discard_piles_mut(&mut self, player: usize) -> (r: &mut Vec<Card>)
        requires
            old(self).wf(),
            player < 2,
        ensures
            *r == *old(self).discard_piles@[player as int],
            final(self).discard_piles@ == old(self).discard_piles@.update(
                player as int,
                final(self).discard_piles@[player as int],
            ),
            *final(self).discard_piles@[player as int] == *final(r),
            *final(self) == (OptimizedState {
                discard_piles: final(self).discard_piles,
                ..*old(self)
            }),
    {
        arc_make_mut(&mut self.discard_piles[player])
    }

    /// A writable borrow of the sub-decision stack.
    pub fn move_generation_stack_mut(&mut self) -> (r: &mut Vec<(usize, Vec<SimpleAction>)>)
        ensures
            *r == *old(self).move_generation_stack,
            *final(self).move_generation_stack == *final(r),
            *final(self) == (OptimizedState {
                move_generation_stack: final(self).move_generation_stack,
                ..*old(self)
            }),
    {
        arc_make_mut(&mut self.move_generation_stack)
    }

    /// A writable borrow of the turn-effect table.
    pub fn turn_effects_mut(&mut self) -> (r: &mut Vec<(u8, Vec<Card>)>)
        ensures
            *r == *old(self).turn_effects,
            *final(self).turn_effects == *final(r),
            *final(self) == (OptimizedState {
                turn_effects: final(self).turn_effects,
                ..*old(self)
            }),
    {
        arc_make_mut(&mut self.turn_effects)
    }

    /// Pops the top of the player's deck into their hand, copying the two
    /// collections first if they are shared; an empty deck draws nothing.
    pub fn maybe_draw_card(&mut self, player: usize)
        requires
            old(self).wf(),
            player < 2,
        ensures
            final(self).wf(),
            *final(self) == (OptimizedState {
                hands: final(self).hands,
                decks: final(self).decks,
                ..*old(self)
            }),
            (*old(self).decks@[player as int]).cards@.len() == 0 ==> (*final(self).hands@[player as int])@
                == (*old(self).hands@[player as int])@,
            (*old(self).decks@[player as int]).cards@.len() > 0 ==> {
                &&& (*final(self).hands@[player as int])@ == (*old(self).hands@[player as int])@.push(
                    (*old(self).decks@[player as int]).cards@[0],
                )
                &&& (*final(self).decks@[player as int]).cards@ == (*old(self).decks@[player as int]).cards@.drop_first()
            },
    {
        let drawn = self.decks_mut(player).draw();
        match drawn {
            Some(card) => {
                self.hands_mut(player).push(card);
            },
            None => {},
        }
    }

    /// The remaining hit points of the Pokemon in the slot.
    pub fn get_remaining_hp(&self, player: usize, index: usize) -> (r: u32)
        requires
            self.wf(),
            player < 2,
            index < 4,
            self.in_play_pokemon@[player as int]@[index as int] is Some,
        ensures
            r == self.in_play_pokemon@[player as int]@[index as int]->0.remaining_hp,
    {
        match &self.in_play_pokemon[player][index] {
            Some(pc) => pc.remaining_hp,
            None => unreached(),
        }
    }

    /// The occupied slots of a player's side, in slot order.
    pub fn enumerate_in_play_pokemon(&self, player: usize) -> (r: Vec<(usize, PlayedCard)>)
        requires
            self.wf(),
            player < 2,
        ensures
            forall|k: int|
                0 <= k < r@.len() ==> (#[trigger] r@[k]).0 < 4
                    && self.in_play_pokemon@[player as int]@[r@[k].0 as int] is Some,
    {
        let mut r: Vec<(usize, PlayedCard)> = Vec::new();
        let mut i: usize = 0;
        while i < 4
            invariant
                self.wf(),
                player < 2,
                i <= 4,
                forall|k: int|
                    0 <= k < r@.len() ==> (#[trigger] r@[k]).0 < 4
                        && self.in_play_pokemon@[player as int]@[r@[k].0 as int] is Some,
            decreases 4 - i,
        {
            match &self.in_play_pokemon[player][i] {
                Some(pc) => {
                    r.push((i, pc.clone()));
                },
                None => {},
            }
            i += 1;
        }
        r
    }

    /// The occupied bench slots (indices 1 to 3) of a player's side.
    pub fn enumerate_bench_pokemon(&self, player: usize) -> (r: Vec<(usize, PlayedCard)>)
        requires
            self.wf(),
            player < 2,
        ensures
            forall|k: int|
                0 <= k < r@.len() ==> 1 <= (#[trigger] r@[k]).0 < 4
                    && self.in_play_pokemon@[player as int]@[r@[k].0 as int] is Some,
    {
        let mut r: Vec<(usize, PlayedCard)> = Vec::new();
        let mut i: usize = 1;
        while i < 4
            invariant
                self.wf(),
                player < 2,
                1 <= i <= 4,
                forall|k: int|
                    0 <= k < r@.len() ==> 1 <= (#[trigger] r@[k]).0 < 4
                        && self.in_play_pokemon@[player as int]@[r@[k].0 as int] is Some,
            decreases 4 - i,
        {
            match &self.in_play_pokemon[player][i] {
                Some(pc) => {
                    r.push((i, pc.clone()));
                },
                None => {},
            }
            i += 1;
        }
        r
    }

    /// Whether the game has ended: a winner, or the hundred-turn limit.
    pub fn is_game_over(&self) -> (r: bool)
        ensures
            r == (self.winner is Some || self.turn_count >= 100),
    {
        self.winner.is_some() || self.turn_count >= 100
    }

    /// How many of the player's fielded Pokemon are of the given type.
    pub fn num_in_play_of_type(&self, player: usize, energy: EnergyType) -> (r: usize)
        requires
            self.wf(),
            player < 2,
        ensures
            r <= 4,
    {
        let mut count: usize = 0;
        let mut i: usize = 0;
        while i < 4
            invariant
                self.wf(),
                player < 2,
                i <= 4,
                count <= i,
            decreases 4 - i,
        {
            match &self.in_play_pokemon[player][i] {
                Some(pc) => {
                    match pc.get_energy_type() {
                        Some(e) => {
                            if e == energy {
                                count += 1;
                            }
                        },
                        None => {},
                    }
                },
                None => {},
            }
            i += 1;
        }
        count
    }

    /// A one-screen account of the snapshot, as `State::debug_string` gives.
    pub fn debug_string(&self) -> (r: String)
        requires
            self.wf(),
    {
        let mut s = crate::errors::join_strings(
            &crate::state::to_canonical_names(&self.hands[0]),
            ", ",
        );
        s.append("\n");
        let row = crate::state::format_cards(&self.in_play_pokemon[0]);
        let joined = crate::errors::join_strings(&row, ", ");
        s.append(joined.as_str());
        s.append("\n");
        let row = crate::state::format_cards(&self.in_play_pokemon[1]);
        let joined = crate::errors::join_strings(&row, ", ");
        s.append(joined.as_str());
        s.append("\n");
        let names = crate::state::to_canonical_names(&self.hands[1]);
        let joined = crate::errors::join_strings(&names, ", ");
        s.append(joined.as_str());
        s
    }

    /// Deals a match out: decks shuffled so an opening hand can hold a
    /// Basic, five cards drawn each, and a fair coin for the start.
    pub fn initialize(deck_a: &Deck, deck_b: &Deck, rng: &mut rand::rngs::StdRng) -> (r:
        OptimizedState)
        ensures
            r.wf(),
            r.winner is None,
            r.turn_count == 0,
    {
        let mut state = OptimizedState::new(deck_a, deck_b);
        state.decks_mut(0).shuffle(true, rng);
        state.decks_mut(1).shuffle(true, rng);
        let mut k: usize = 0;
        while k < 5
            invariant
                state.wf(),
                k <= 5,
                state.winner is None,
                state.turn_count == 0,
            decreases 5 - k,
        {
            state.maybe_draw_card(0);
            state.maybe_draw_card(1);
            k += 1;
        }
        let start = rand_index(rng, 2);
        state.current_player = start;
        state
    }
}

} // verus!
