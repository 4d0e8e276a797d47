use vstd::prelude::*;
use crate::actions::SimpleAction;
use crate::deck::{Deck, DeckV};
use crate::types::{Card, EnergyType, PlayedCard};

verus! {

/// How a finished match ended: one player won, or the match was tied.
#[derive(Debug, Clone, Copy, Hash, PartialEq, Eq, Structural)]
pub enum GameOutcome {
    Win(usize),
    Tie,
}

/// Mathematical image of a [`State`]: the same data over sequences, so that
/// contracts can speak of whole snapshots extensionally.
#[verifier::ext_equal]
pub ghost struct StateV {
    pub winner: Option<GameOutcome>,
    pub points: Seq<u8>,
    pub turn_count: u8,
    pub current_player: usize,
    pub move_generation_stack: Seq<(usize, Seq<SimpleAction>)>,
    pub current_energy: Option<EnergyType>,
    pub hands: Seq<Seq<Card>>,
    pub decks: Seq<DeckV>,
    pub discard_piles: Seq<Seq<Card>>,
    pub in_play_pokemon: Seq<Seq<Option<PlayedCard>>>,
    pub has_played_support: bool,
    pub has_retreated: bool,
    pub turn_effects: Seq<(u8, Seq<Card>)>,
}

/// The entire snapshot of a match.
#[derive(Debug, Clone, Hash, PartialEq, Eq)]
pub struct State {
    /// The outcome, once decided.
    pub winner: Option<GameOutcome>,
    /// Knockout points per player; the game ends at three.
    pub points: Vec<u8>,
    /// Global turn counter; the first real turn is 1.
    pub turn_count: u8,
    /// The player whose decision is next. It differs from the turn owner
    /// while a sub-decision addressed to the other player is outstanding.
    pub current_player: usize,
    /// Outstanding sub-decisions, last in first out: each frame names the
    /// actor who must answer and the actions they may choose from.
    pub move_generation_stack: Vec<(usize, Vec<SimpleAction>)>,
    /// The energy available to attach this turn, once generated.
    pub current_energy: Option<EnergyType>,
    /// The two players' hands. Order is preserved for deterministic hashing.
    pub hands: Vec<Vec<Card>>,
    /// The two players' decks; the top of a deck is index 0.
    pub decks: Vec<Deck>,
    /// The two players' discard piles.
    pub discard_piles: Vec<Vec<Card>>,
    /// The field: for each player, slot 0 is the active spot, 1 to 3 the bench.
    pub in_play_pokemon: Vec<Vec<Option<PlayedCard>>>,
    /// Whether the turn owner has already played a Supporter this turn.
    pub has_played_support: bool,
    /// Whether the turn owner has already retreated this turn.
    pub has_retreated: bool,
    /// Effects scoped to turns, keyed by turn index in strictly increasing
    /// order so that equal states compare and hash equal. Kept in order by
    /// `add_turn_effect`; do not push entries directly.
    pub turn_effects: Vec<(u8, Vec<Card>)>,
}

impl View for State {
    type V = StateV;

    open spec fn view(&self) -> StateV {
        StateV {
            winner: self.winner,
            points: self.points@,
            turn_count: self.turn_count,
            current_player: self.current_player,
            move_generation_stack: self.move_generation_stack@.map_values(
                |f: (usize, Vec<SimpleAction>)| (f.0, f.1@),
            ),
            current_energy: self.current_energy,
            hands: self.hands@.map_values(|h: Vec<Card>| h@),
            decks: self.decks@.map_values(|d: Deck| d@),
            discard_piles: self.discard_piles@.map_values(|h: Vec<Card>| h@),
            in_play_pokemon: self.in_play_pokemon@.map_values(|r: Vec<Option<PlayedCard>>| r@),
            has_played_support: self.has_played_support,
            has_retreated: self.has_retreated,
            turn_effects: self.turn_effects@.map_values(|e: (u8, Vec<Card>)| (e.0, e.1@)),
        }
    }
}

/// The number of cards one slot accounts for.
pub open spec fn spec_slot_cards(slot: Option<PlayedCard>) -> int {
    match slot {
        Some(pc) => 1 + pc.cards_behind@.len() as int,
        None => 0,
    }
}

/// The number of cards a row of in-play slots accounts for: each occupied
/// slot holds its card and every card it evolved over.
pub open spec fn spec_slots_cards(row: Seq<Option<PlayedCard>>) -> int
    decreases row.len(),
{
    if row.len() == 0 {
        0
    } else {
        spec_slot_cards(row[0]) + spec_slots_cards(row.drop_first())
    }
}

/// A row of empty slots accounts for no cards.
pub proof fn lemma_slots_cards_all_none(row: Seq<Option<PlayedCard>>)
    requires
        forall|i: int| 0 <= i < row.len() ==> (#[trigger] row[i]) is None,
    ensures
        spec_slots_cards(row) == 0,
    decreases row.len(),
{
    if row.len() > 0 {
        lemma_slots_cards_all_none(row.drop_first());
    }
}

/// Replacing one slot changes the row's card count by the difference of the
/// two slots' own counts.
pub proof fn lemma_slots_cards_update(row: Seq<Option<PlayedCard>>, i: int, v: Option<PlayedCard>)
    requires
        0 <= i < row.len(),
    ensures
        spec_slots_cards(row.update(i, v)) == spec_slots_cards(row) - spec_slot_cards(row[i])
            + spec_slot_cards(v),
    decreases row.len(),
{
    if i == 0 {
        assert(row.update(0, v).drop_first() =~= row.drop_first());
    } else {
        lemma_slots_cards_update(row.drop_first(), i - 1, v);
        assert(row.update(i, v).drop_first() =~= row.drop_first().update(i - 1, v));
        assert(row.update(i, v)[0] == row[0]);
    }
}

impl StateV {
    /// The Pokemon in a given slot.
    pub open spec fn slot(self, player: int, idx: int) -> Option<PlayedCard> {
        self.in_play_pokemon[player][idx]
    }

    /// All cards a player accounts for: hand, deck, discard pile, and the
    /// cards standing in or under their fielded Pokemon.
    pub open spec fn card_count(self, player: int) -> int {
        self.hands[player].len() + self.decks[player].cards.len()
            + self.discard_piles[player].len() + spec_slots_cards(self.in_play_pokemon[player])
    }

    /// The sides and slots have their fixed shape, and every fielded Pokemon
    /// is a Pokemon card whose hit points lie in range: more than zero, at
    /// most its printed total.
    pub open spec fn wf(self) -> bool {
        &&& self.points.len() == 2
        &&& self.hands.len() == 2
        &&& self.decks.len() == 2
        &&& self.discard_piles.len() == 2
        &&& self.in_play_pokemon.len() == 2
        &&& forall|p: int| 0 <= p < 2 ==> (#[trigger] self.in_play_pokemon[p]).len() == 4
        &&& forall|p: int, i: int|
            0 <= p < 2 && 0 <= i < 4 ==> match #[trigger] self.in_play_pokemon[p][i] {
                Some(pc) => 0 < pc.remaining_hp <= pc.total_hp && pc.card is Pokemon,
                None => true,
            }
        &&& self.current_player < 2
        &&& forall|k: int|
            0 <= k < self.move_generation_stack.len() ==> (
            #[trigger] self.move_generation_stack[k]).0 < 2
        &&& forall|i: int, j: int|
            0 <= i < j < self.turn_effects.len() ==> (#[trigger] self.turn_effects[i]).0 < (
            #[trigger] self.turn_effects[j]).0
    }

    /// Both players' card counts agree between two snapshots: no card
    /// appears or disappears.
    pub open spec fn same_card_counts(self, other: StateV) -> bool {
        forall|p: int| 0 <= p < 2 ==> self.card_count(p) == other.card_count(p)
    }
}

impl State {
    /// A fresh, empty state over clones of the two decks.
    pub fn new(deck_a: &Deck, deck_b: &Deck) -> (r: State)
        ensures
            r@.wf(),
            r@.winner is None,
            r@.points =~= seq![0u8, 0u8],
            r@.turn_count == 0,
            r@.current_player == 0,
            r@.move_generation_stack.len() == 0,
            r@.current_energy is None,
            r@.hands[0].len() == 0 && r@.hands[1].len() == 0,
            r@.decks[0].cards.len() == deck_a@.cards.len(),
            r@.decks[1].cards.len() == deck_b@.cards.len(),
            r@.decks[0].cards.map_values(|c: Card| c@) == deck_a@.cards.map_values(|c: Card| c@),
            r@.decks[1].cards.map_values(|c: Card| c@) == deck_b@.cards.map_values(|c: Card| c@),
            r@.decks[0].energy_types == deck_a@.energy_types,
            r@.decks[1].energy_types == deck_b@.energy_types,
            r@.discard_piles[0].len() == 0 && r@.discard_piles[1].len() == 0,
            forall|p: int, i: int| 0 <= p < 2 && 0 <= i < 4 ==> r@.slot(p, i) is None,
            !r@.has_played_support,
            !r@.has_retreated,
            r@.card_count(0) == deck_a@.cards.len(),
            r@.card_count(1) == deck_b@.cards.len(),
            r@.turn_effects.len() == 0,
    {
        let mut hands: Vec<Vec<Card>> = Vec::new();
        hands.push(Vec::new());
        hands.push(Vec::new());
        let mut decks: Vec<Deck> = Vec::new();
        decks.push(deck_a.clone());
        decks.push(deck_b.clone());
        let mut discard_piles: Vec<Vec<Card>> = Vec::new();
        discard_piles.push(Vec::new());
        discard_piles.push(Vec::new());
        let mut in_play_pokemon: Vec<Vec<Option<PlayedCard>>> = Vec::new();
        let mut row_a: Vec<Option<PlayedCard>> = Vec::new();
        row_a.push(None);
        row_a.push(None);
        row_a.push(None);
        row_a.push(None);
        let mut row_b: Vec<Option<PlayedCard>> = Vec::new();
        row_b.push(None);
        row_b.push(None);
        row_b.push(None);
        row_b.push(None);
        in_play_pokemon.push(row_a);
        in_play_pokemon.push(row_b);
        let mut points: Vec<u8> = Vec::new();
        points.push(0);
        points.push(0);
        let r = State {
            winner: None,
            points,
            turn_count: 0,
            current_player: 0,
            move_generation_stack: Vec::new(),
            current_energy: None,
            hands,
            decks,
            discard_piles,
            in_play_pokemon,
            has_played_support: false,
            has_retreated: false,
            turn_effects: Vec::new(),
        };
        proof {
            lemma_slots_cards_all_none(r@.in_play_pokemon[0]);
            lemma_slots_cards_all_none(r@.in_play_pokemon[1]);
        }
        r
    }

    /// Pops the top of the player's deck into their hand; does nothing when
    /// the deck is empty. Deck-out is handled elsewhere, at end of turn.
    pub fn maybe_draw_card(&mut self, player: usize)
        requires
            old(self)@.wf(),
            player < 2,
        ensures
            final(self)@.wf(),
            old(self)@.decks[player as int].cards.len() == 0 ==> final(self)@ =~~= old(self)@,
            old(self)@.decks[player as int].cards.len() > 0 ==> final(self)@ =~~= (StateV {
                hands: old(self)@.hands.update(
                    player as int,
                    old(self)@.hands[player as int].push(
                        old(self)@.decks[player as int].cards[0],
                    ),
                ),
                decks: old(self)@.decks.update(
                    player as int,
                    DeckV {
                        cards: old(self)@.decks[player as int].cards.drop_first(),
                        ..old(self)@.decks[player as int]
                    },
                ),
                ..old(self)@
            }),
            final(self)@.same_card_counts(old(self)@),
    {
        let drawn = self.decks[player].draw();
        match drawn {
            Some(card) => {
                self.hands[player].push(card);
                proof {
                    assert(self@.hands =~~= old(self)@.hands.update(
                        player as int,
                        old(self)@.hands[player as int].push(
                            old(self)@.decks[player as int].cards[0],
                        ),
                    ));
                    assert(self@.decks =~~= old(self)@.decks.update(
                        player as int,
                        DeckV {
                            cards: old(self)@.decks[player as int].cards.drop_first(),
                            ..old(self)@.decks[player as int]
                        },
                    ));
                }
            },
            None => {
                proof {
                    assert(self@.decks =~~= old(self)@.decks);
                    assert(self@ =~~= old(self)@);
                }
            },
        }
    }
}

} // verus!

verus! {

/// The position of the first card in `s` that the engine's card identity
/// (same kind, same printed identifier) matches with `c`; negative when none does.
pub open spec fn first_card_index(s: Seq<Card>, c: Card) -> int
    decreases s.len(),
{
    if s.len() == 0 {
        -1
    } else if crate::types::spec_card_eq(s[0], c) {
        0
    } else {
        let rest = first_card_index(s.drop_first(), c);
        if rest < 0 {
            -1
        } else {
            rest + 1
        }
    }
}

/// Card identity looks only at kind and printed identifier, so two cards
/// that the identity relation equates match the same positions.
pub proof fn lemma_first_card_index_congruence(s: Seq<Card>, a: Card, b: Card)
    requires
        crate::types::spec_card_eq(a, b),
    ensures
        first_card_index(s, a) == first_card_index(s, b),
    decreases s.len(),
{
    if s.len() > 0 {
        lemma_first_card_index_congruence(s.drop_first(), a, b);
    }
}

/// What `first_card_index` finds: the first match, or no match anywhere.
pub proof fn lemma_first_card_index(s: Seq<Card>, c: Card)
    ensures
        first_card_index(s, c) < 0 ==> forall|j: int|
            0 <= j < s.len() ==> !crate::types::spec_card_eq(s[j], c),
        first_card_index(s, c) >= 0 ==> {
            let i = first_card_index(s, c);
            &&& i < s.len()
            &&& crate::types::spec_card_eq(s[i], c)
            &&& forall|j: int| 0 <= j < i ==> !crate::types::spec_card_eq(s[j], c)
        },
    decreases s.len(),
{
    if s.len() > 0 && !crate::types::spec_card_eq(s[0], c) {
        lemma_first_card_index(s.drop_first(), c);
        assert(forall|j: int| 1 <= j < s.len() ==> s[j] == s.drop_first()[j - 1]);
    }
}

/// Two rows whose slots account for the same number of cards slot by slot
/// account for the same number of cards.
pub proof fn lemma_slots_cards_pointwise(a: Seq<Option<PlayedCard>>, b: Seq<Option<PlayedCard>>)
    requires
        a.len() == b.len(),
        forall|i: int| 0 <= i < a.len() ==> spec_slot_cards(a[i]) == spec_slot_cards(b[i]),
    ensures
        spec_slots_cards(a) == spec_slots_cards(b),
    decreases a.len(),
{
    if a.len() > 0 {
        lemma_slots_cards_pointwise(a.drop_first(), b.drop_first());
        assert(forall|j: int| 1 <= j < a.len() ==> a[j] == a.drop_first()[j - 1]);
        assert(forall|j: int| 1 <= j < b.len() ==> b[j] == b.drop_first()[j - 1]);
    }
}

/// The effects recorded for turn `t`: the list of the first entry keyed `t`,
/// or the empty list.
pub open spec fn spec_effects_at(effects: Seq<(u8, Seq<Card>)>, t: u8) -> Seq<Card>
    decreases effects.len(),
{
    if effects.len() == 0 {
        Seq::empty()
    } else if effects[0].0 == t {
        effects[0].1
    } else {
        spec_effects_at(effects.drop_first(), t)
    }
}

/// When entry `i` is the first entry keyed `t`, it is what `spec_effects_at` finds.
pub proof fn lemma_effects_at_found(effects: Seq<(u8, Seq<Card>)>, t: u8, i: int)
    requires
        0 <= i < effects.len(),
        effects[i].0 == t,
        forall|j: int| 0 <= j < i ==> (#[trigger] effects[j]).0 != t,
    ensures
        spec_effects_at(effects, t) == effects[i].1,
    decreases i,
{
    if i > 0 {
        assert(forall|j: int| 1 <= j < effects.len() ==> effects[j] == effects.drop_first()[j - 1]);
        lemma_effects_at_found(effects.drop_first(), t, i - 1);
    }
}

/// When no entry is keyed `t`, `spec_effects_at` finds nothing.
pub proof fn lemma_effects_at_missing(effects: Seq<(u8, Seq<Card>)>, t: u8)
    requires
        forall|j: int| 0 <= j < effects.len() ==> (#[trigger] effects[j]).0 != t,
    ensures
        spec_effects_at(effects, t) == Seq::<Card>::empty(),
    decreases effects.len(),
{
    if effects.len() > 0 {
        assert(forall|j: int| 1 <= j < effects.len() ==> effects[j] == effects.drop_first()[j - 1]);
        lemma_effects_at_missing(effects.drop_first(), t);
    }
}

/// The card views of the effects recorded for turn `t`.
pub open spec fn spec_effect_views_at(v: StateV, t: u8) -> Seq<crate::types::CardV> {
    spec_effects_at(v.turn_effects, t).map_values(|c: Card| c@)
}

/// What resetting the per-turn flags leaves of one slot.
pub open spec fn spec_reset_slot(slot: Option<PlayedCard>) -> Option<PlayedCard> {
    match slot {
        Some(pc) => Some(PlayedCard { played_this_turn: false, ability_used: false, ..pc }),
        None => None,
    }
}

impl State {
    /// The remaining hit points of the Pokemon in the given slot.
    pub fn get_remaining_hp(&self, player: usize, index: usize) -> (r: u32)
        requires
            self@.wf(),
            player < 2,
            index < 4,
            self@.slot(player as int, index as int) is Some,
        ensures
            r == self@.slot(player as int, index as int)->0.remaining_hp,
    {
        match &self.in_play_pokemon[player][index] {
            Some(pc) => pc.remaining_hp,
            None => unreached(),
        }
    }

    /// Removes from the player's hand the first card that equals `card`.
    /// As in the rest of the engine, two cards are equal when their printed
    /// identifiers agree. The last card of the hand takes the freed position.
    pub fn remove_card_from_hand(&mut self, current_player: usize, card: &Card)
        requires
            old(self)@.wf(),
            current_player < 2,
            first_card_index(old(self)@.hands[current_player as int], *card) >= 0,
        ensures
            final(self)@.wf(),
            ({
                let p = current_player as int;
                let hand = old(self)@.hands[p];
                let i = first_card_index(hand, *card);
                final(self)@ =~~= (StateV {
                    hands: old(self)@.hands.update(p, hand.update(i, hand.last()).drop_last()),
                    ..old(self)@
                })
            }),
            final(self)@.card_count(current_player as int) == old(self)@.card_count(
                current_player as int,
            ) - 1,
            final(self)@.card_count(1 - current_player as int) == old(self)@.card_count(
                1 - current_player as int,
            ),
    {
        proof {
            lemma_first_card_index(old(self)@.hands[current_player as int], *card);
        }
        let ghost fi = first_card_index(old(self)@.hands[current_player as int], *card);
        let hand_len = self.hands[current_player].len();
        let mut j: usize = 0;
        while j < hand_len
            invariant
                old(self)@.wf(),
                current_player < 2,
                *self == *old(self),
                hand_len == self@.hands[current_player as int].len(),
                j <= hand_len,
                0 <= fi < hand_len,
                fi == first_card_index(old(self)@.hands[current_player as int], *card),
                crate::types::spec_card_eq(old(self)@.hands[current_player as int][fi], *card),
                forall|k: int|
                    0 <= k < fi ==> !crate::types::spec_card_eq(
                        old(self)@.hands[current_player as int][k],
                        *card,
                    ),
                j <= fi,
            decreases hand_len - j,
        {
            if &self.hands[current_player][j] == card {
                assert(j == fi);
                self.hands[current_player].swap_remove(j);
                proof {
                    assert(self@.hands =~~= old(self)@.hands.update(
                        current_player as int,
                        self@.hands[current_player as int],
                    ));
                    assert(self@ =~~= (StateV {
                        hands: self@.hands,
                        ..old(self)@
                    }));
                }
                return ;
            }
            j += 1;
        }
        proof {
            assert(false);
        }
    }

    /// Removes the first card equal to `card` from the player's hand and puts
    /// it on their discard pile.
    pub fn discard_card_from_hand(&mut self, current_player: usize, card: &Card)
        requires
            old(self)@.wf(),
            current_player < 2,
            first_card_index(old(self)@.hands[current_player as int], *card) >= 0,
        ensures
            final(self)@.wf(),
            ({
                let p = current_player as int;
                let hand = old(self)@.hands[p];
                let i = first_card_index(hand, *card);
                final(self)@ =~~= (StateV {
                    hands: old(self)@.hands.update(p, hand.update(i, hand.last()).drop_last()),
                    discard_piles: old(self)@.discard_piles.update(
                        p,
                        old(self)@.discard_piles[p].push(hand[i]),
                    ),
                    ..old(self)@
                })
            }),
            final(self)@.same_card_counts(old(self)@),
    {
        proof {
            lemma_first_card_index(old(self)@.hands[current_player as int], *card);
        }
        let ghost fi = first_card_index(old(self)@.hands[current_player as int], *card);
        let hand_len = self.hands[current_player].len();
        let mut j: usize = 0;
        while j < hand_len
            invariant
                old(self)@.wf(),
                current_player < 2,
                *self == *old(self),
                hand_len == self@.hands[current_player as int].len(),
                j <= hand_len,
                0 <= fi < hand_len,
                fi == first_card_index(old(self)@.hands[current_player as int], *card),
                crate::types::spec_card_eq(old(self)@.hands[current_player as int][fi], *card),
                forall|k: int|
                    0 <= k < fi ==> !crate::types::spec_card_eq(
                        old(self)@.hands[current_player as int][k],
                        *card,
                    ),
                j <= fi,
            decreases hand_len - j,
        {
            if &self.hands[current_player][j] == card {
                assert(j == fi);
                let removed = self.hands[current_player].swap_remove(j);
                self.discard_piles[current_player].push(removed);
                proof {
                    let p = current_player as int;
                    assert(self@.hands =~~= old(self)@.hands.update(p, self@.hands[p]));
                    assert(self@.discard_piles =~~= old(self)@.discard_piles.update(
                        p,
                        old(self)@.discard_piles[p].push(old(self)@.hands[p][fi]),
                    ));
                    assert(self@ =~~= (StateV {
                        hands: self@.hands,
                        discard_piles: self@.discard_piles,
                        ..old(self)@
                    }));
                }
                return ;
            }
            j += 1;
        }
        proof {
            assert(false);
        }
    }

    /// Draws this turn's energy: one type, uniformly from the engine's own
    /// generator, out of the current player's declared energy pool. With a
    /// single declared type the choice is determined.
    pub fn generate_energy(&mut self, rng: &mut rand::rngs::StdRng)
        requires
            old(self)@.wf(),
        ensures
            final(self)@.wf(),
            ({
                let pool = old(self)@.decks[old(self)@.current_player as int].energy_types;
                &&& final(self)@ =~~= (StateV {
                    current_energy: final(self)@.current_energy,
                    ..old(self)@
                })
                &&& pool.len() == 0 ==> final(self)@.current_energy is None
                &&& pool.len() > 0 ==> (final(self)@.current_energy matches Some(e)
                    && pool.contains(e))
                &&& pool.len() == 1 ==> final(self)@.current_energy == Some(pool[0])
            }),
    {
        let pool_len = self.decks[self.current_player].energy_types.len();
        if pool_len == 0 {
            self.current_energy = None;
            return ;
        }
        let idx = crate::rng::rand_index(rng, pool_len);
        let chosen = self.decks[self.current_player].energy_types[idx];
        self.current_energy = Some(chosen);
        proof {
            let pool = old(self)@.decks[old(self)@.current_player as int].energy_types;
            assert(pool.contains(pool[idx as int]));
        }
    }

    /// Clears the per-turn flags: each fielded Pokemon may act again, and the
    /// new turn owner has played no Supporter and has not retreated.
    pub fn reset_turn_states(&mut self)
        requires
            old(self)@.wf(),
        ensures
            final(self)@.wf(),
            final(self)@ =~~= (StateV {
                in_play_pokemon: final(self)@.in_play_pokemon,
                has_played_support: false,
                has_retreated: false,
                ..old(self)@
            }),
            forall|p: int, i: int|
                0 <= p < 2 && 0 <= i < 4 ==> final(self)@.slot(p, i) == spec_reset_slot(
                    old(self)@.slot(p, i),
                ),
            final(self)@.same_card_counts(old(self)@),
    {
        let mut p: usize = 0;
        while p < 2
            invariant
                old(self)@.wf(),
                p <= 2,
                self@ =~~= (StateV { in_play_pokemon: self@.in_play_pokemon, ..old(self)@ }),
                self@.in_play_pokemon.len() == 2,
                forall|q: int| 0 <= q < 2 ==> (#[trigger] self@.in_play_pokemon[q]).len() == 4,
                forall|q: int, k: int|
                    0 <= q < p && 0 <= k < 4 ==> self@.slot(q, k) == spec_reset_slot(
                        old(self)@.slot(q, k),
                    ),
                forall|q: int, k: int|
                    p <= q < 2 && 0 <= k < 4 ==> self@.slot(q, k) == old(self)@.slot(q, k),
            decreases 2 - p,
        {
            let mut i: usize = 0;
            while i < 4
                invariant
                    old(self)@.wf(),
                    p < 2,
                    i <= 4,
                    self@ =~~= (StateV { in_play_pokemon: self@.in_play_pokemon, ..old(self)@ }),
                    self@.in_play_pokemon.len() == 2,
                    forall|q: int| 0 <= q < 2 ==> (#[trigger] self@.in_play_pokemon[q]).len() == 4,
                    forall|q: int, k: int|
                        0 <= q < p && 0 <= k < 4 ==> self@.slot(q, k) == spec_reset_slot(
                            old(self)@.slot(q, k),
                        ),
                    forall|k: int|
                        0 <= k < i ==> self@.slot(p as int, k) == spec_reset_slot(
                            old(self)@.slot(p as int, k),
                        ),
                    forall|k: int|
                        i <= k < 4 ==> self@.slot(p as int, k) == old(self)@.slot(p as int, k),
                    forall|q: int, k: int|
                        p < q < 2 && 0 <= k < 4 ==> self@.slot(q, k) == old(self)@.slot(q, k),
                decreases 4 - i,
            {
                let ghost pre = self@;
                let slot = self.in_play_pokemon[p][i].take();
                match slot {
                    Some(pc) => {
                        let mut pc = pc;
                        pc.played_this_turn = false;
                        pc.ability_used = false;
                        self.in_play_pokemon[p][i] = Some(pc);
                    },
                    None => {},
                }
                proof {
                    assert(self@.in_play_pokemon =~~= pre.in_play_pokemon.update(
                        p as int,
                        pre.in_play_pokemon[p as int].update(
                            i as int,
                            spec_reset_slot(pre.slot(p as int, i as int)),
                        ),
                    ));
                    assert(self@ =~~= (StateV {
                        in_play_pokemon: self@.in_play_pokemon,
                        ..pre
                    }));
                }
                i += 1;
            }
            p += 1;
        }
        self.has_played_support = false;
        self.has_retreated = false;
        proof {
            assert forall|p0: int, k: int| 0 <= p0 < 2 && 0 <= k < 4 implies match #[trigger] self@.in_play_pokemon[p0][k] {
                Some(pc) => 0 < pc.remaining_hp <= pc.total_hp && pc.card is Pokemon,
                None => true,
            } by {
                assert(self@.slot(p0, k) == spec_reset_slot(old(self)@.slot(p0, k)));
                assert(match old(self)@.slot(p0, k) {
                    Some(pc) => 0 < pc.remaining_hp <= pc.total_hp && pc.card is Pokemon,
                    None => true,
                });
            }
            assert forall|p0: int| 0 <= p0 < 2 implies self@.card_count(p0) == old(
                self,
            )@.card_count(p0) by {
                assert(self@.in_play_pokemon[p0].len() == 4);
                assert(old(self)@.in_play_pokemon[p0].len() == 4);
                assert forall|k: int|
                    0 <= k < 4 implies spec_slot_cards(self@.in_play_pokemon[p0][k])
                    == spec_slot_cards(old(self)@.in_play_pokemon[p0][k]) by {
                    assert(self@.slot(p0, k) == spec_reset_slot(old(self)@.slot(p0, k)));
                }
                lemma_slots_cards_pointwise(
                    self@.in_play_pokemon[p0],
                    old(self)@.in_play_pokemon[p0],
                );
            }
        }
    }

    /// Whether the game has ended: a winner is decided, or the turn limit of
    /// one hundred turns is reached.
    pub fn is_game_over(&self) -> (r: bool)
        ensures
            r == (self@.winner is Some || self@.turn_count >= 100),
    {
        self.winner.is_some() || self.turn_count >= 100
    }
}

} // verus!

verus! {

/// Changing the list of entry `i` (keeping its key) changes what is recorded
/// for that key and nothing else, provided no earlier entry shares the key.
pub proof fn lemma_effects_at_update(
    effects: Seq<(u8, Seq<Card>)>,
    i: int,
    v: Seq<Card>,
    u: u8,
)
    requires
        0 <= i < effects.len(),
        forall|j: int| 0 <= j < i ==> (#[trigger] effects[j]).0 != effects[i].0,
    ensures
        u == effects[i].0 ==> spec_effects_at(effects.update(i, (effects[i].0, v)), u) == v,
        u != effects[i].0 ==> spec_effects_at(effects.update(i, (effects[i].0, v)), u)
            == spec_effects_at(effects, u),
    decreases i,
{
    let updated = effects.update(i, (effects[i].0, v));
    if i == 0 {
        if u != effects[0].0 {
            assert(updated.drop_first() =~= effects.drop_first());
        }
    } else {
        assert(forall|j: int| 1 <= j < effects.len() ==> effects[j] == effects.drop_first()[j - 1]);
        lemma_effects_at_update(effects.drop_first(), i - 1, v, u);
        assert(updated.drop_first() =~= effects.drop_first().update(
            i - 1,
            (effects[i].0, v),
        ));
        assert(updated[0] == effects[0]);
    }
}

/// Inserting an entry records its list under its key and changes nothing
/// else, provided no earlier entry shares the key.
pub proof fn lemma_effects_at_insert(
    effects: Seq<(u8, Seq<Card>)>,
    i: int,
    e: (u8, Seq<Card>),
    u: u8,
)
    requires
        0 <= i <= effects.len(),
        forall|j: int| 0 <= j < i ==> (#[trigger] effects[j]).0 != e.0,
    ensures
        u == e.0 ==> spec_effects_at(effects.insert(i, e), u) == e.1,
        u != e.0 ==> spec_effects_at(effects.insert(i, e), u) == spec_effects_at(effects, u),
    decreases i,
{
    let inserted = effects.insert(i, e);
    if i == 0 {
        assert(inserted[0] == e);
        assert(inserted.drop_first() =~= effects);
    } else {
        assert(forall|j: int| 1 <= j < effects.len() ==> effects[j] == effects.drop_first()[j - 1]);
        lemma_effects_at_insert(effects.drop_first(), i - 1, e, u);
        assert(inserted.drop_first() =~= effects.drop_first().insert(i - 1, e));
        assert(inserted[0] == effects[0]);
    }
}

/// How many Pokemon of the given elemental type stand among the first `n`
/// slots of a row.
pub open spec fn spec_count_of_type(row: Seq<Option<PlayedCard>>, e: EnergyType, n: int) -> int
    decreases n,
{
    if n <= 0 {
        0
    } else {
        spec_count_of_type(row, e, n - 1) + (match row[n - 1] {
            Some(pc) => if pc.card.spec_type() == Some(e) {
                1int
            } else {
                0int
            },
            None => 0int,
        })
    }
}

impl State {
    /// Records `card` as an effect for the current turn and the `duration`
    /// following ones: zero means the current turn only.
    pub fn add_turn_effect(&mut self, card: Card, duration: u8)
        requires
            old(self)@.wf(),
            old(self)@.turn_count + duration < 256,
        ensures
            final(self)@.wf(),
            final(self)@ =~~= (StateV { turn_effects: final(self)@.turn_effects, ..old(self)@ }),
            forall|u: u8|
                spec_effect_views_at(final(self)@, u) == if old(self)@.turn_count <= u <= old(
                    self,
                )@.turn_count + duration {
                    spec_effect_views_at(old(self)@, u).push(card@)
                } else {
                    spec_effect_views_at(old(self)@, u)
                },
    {
        let mut turn_offset: u32 = 0;
        while turn_offset < duration as u32 + 1
            invariant
                old(self)@.wf(),
                old(self)@.turn_count + duration < 256,
                self@.wf(),
                turn_offset <= duration as u32 + 1,
                self@ =~~= (StateV { turn_effects: self@.turn_effects, ..old(self)@ }),
                forall|u: u8|
                    spec_effect_views_at(self@, u) == if old(self)@.turn_count <= u < old(
                        self,
                    )@.turn_count + turn_offset {
                        spec_effect_views_at(old(self)@, u).push(card@)
                    } else {
                        spec_effect_views_at(old(self)@, u)
                    },
            decreases duration as u32 + 1 - turn_offset,
        {
            let target_turn = self.turn_count + (turn_offset as u8);
            let copy = card.clone();
            self.add_effect_at(target_turn, copy);
            turn_offset += 1;
        }
    }

    /// Appends `card` to the effects recorded for turn `t`.
    fn add_effect_at(&mut self, t: u8, card: Card)
        requires
            old(self)@.wf(),
        ensures
            final(self)@.wf(),
            final(self)@ =~~= (StateV { turn_effects: final(self)@.turn_effects, ..old(self)@ }),
            forall|u: u8|
                spec_effect_views_at(final(self)@, u) == if u == t {
                    spec_effect_views_at(old(self)@, u).push(card@)
                } else {
                    spec_effect_views_at(old(self)@, u)
                },
    {
        let len = self.turn_effects.len();
        let mut idx: usize = 0;
        while idx < len && self.turn_effects[idx].0 < t
            invariant
                old(self)@.wf(),
                *self == *old(self),
                len == self@.turn_effects.len(),
                idx <= len,
                forall|j: int| 0 <= j < idx ==> (#[trigger] self@.turn_effects[j]).0 < t,
            decreases len - idx,
        {
            idx += 1;
        }
        let ghost effects = self@.turn_effects;
        if idx < len && self.turn_effects[idx].0 == t {
            self.turn_effects[idx].1.push(card);
            proof {
                assert(self@.turn_effects =~~= effects.update(
                    idx as int,
                    (effects[idx as int].0, effects[idx as int].1.push(card)),
                ));
                assert(self@ =~~= (StateV { turn_effects: self@.turn_effects, ..old(self)@ }));
                assert forall|u: u8|
                    spec_effect_views_at(self@, u) == if u == t {
                        spec_effect_views_at(old(self)@, u).push(card@)
                    } else {
                        spec_effect_views_at(old(self)@, u)
                    } by {
                    lemma_effects_at_update(
                        effects,
                        idx as int,
                        effects[idx as int].1.push(card),
                        u,
                    );
                    if u == t {
                        assert(spec_effects_at(self@.turn_effects, u) == effects[idx as int].1.push(
                            card,
                        ));
                        lemma_effects_at_found(effects, t, idx as int);
                        assert(spec_effect_views_at(self@, u) =~= spec_effect_views_at(
                            old(self)@,
                            u,
                        ).push(card@));
                    }
                }
            }
        } else {
            let mut single: Vec<Card> = Vec::new();
            single.push(card);
            self.turn_effects.insert(idx, (t, single));
            proof {
                assert(self@.turn_effects =~~= effects.insert(idx as int, (t, seq![card])));
                assert(self@ =~~= (StateV { turn_effects: self@.turn_effects, ..old(self)@ }));
                assert forall|u: u8|
                    spec_effect_views_at(self@, u) == if u == t {
                        spec_effect_views_at(old(self)@, u).push(card@)
                    } else {
                        spec_effect_views_at(old(self)@, u)
                    } by {
                    lemma_effects_at_insert(effects, idx as int, (t, seq![card]), u);
                    if u == t {
                        lemma_effects_at_missing(effects, t);
                        assert(spec_effect_views_at(old(self)@, u) =~= Seq::<
                            crate::types::CardV,
                        >::empty());
                        assert(spec_effect_views_at(self@, u) =~= seq![card@]);
                        assert(spec_effect_views_at(old(self)@, u).push(card@) =~= seq![card@]);
                    }
                }
            }
        }
    }

    /// The effects recorded for the current turn, as copies.
    pub fn get_current_turn_effects(&self) -> (r: Vec<Card>)
        requires
            self@.wf(),
        ensures
            r@.map_values(|c: Card| c@) == spec_effect_views_at(self@, self@.turn_count),
    {
        let len = self.turn_effects.len();
        let mut idx: usize = 0;
        while idx < len && self.turn_effects[idx].0 != self.turn_count
            invariant
                self@.wf(),
                len == self@.turn_effects.len(),
                idx <= len,
                forall|j: int| 0 <= j < idx ==> (#[trigger] self@.turn_effects[j]).0
                    != self@.turn_count,
            decreases len - idx,
        {
            idx += 1;
        }
        if idx < len {
            proof {
                lemma_effects_at_found(self@.turn_effects, self@.turn_count, idx as int);
            }
            crate::types::clone_cards(&self.turn_effects[idx].1)
        } else {
            proof {
                lemma_effects_at_missing(self@.turn_effects, self@.turn_count);
                assert(Seq::<Card>::empty().map_values(|c: Card| c@) =~= Seq::<
                    crate::types::CardV,
                >::empty());
            }
            Vec::new()
        }
    }

    /// The occupied slots of a player's side, in slot order, each as the slot
    /// index and a copy of the Pokemon standing there.
    pub fn enumerate_in_play_pokemon(&self, player: usize) -> (r: Vec<(usize, PlayedCard)>)
        requires
            self@.wf(),
            player < 2,
        ensures
            forall|k: int|
                0 <= k < r@.len() ==> (#[trigger] r@[k]).0 < 4 && self@.slot(
                    player as int,
                    r@[k].0 as int,
                ) is Some && r@[k].1@ == self@.slot(player as int, r@[k].0 as int)->0@,
            forall|i: int|
                0 <= i < 4 && self@.slot(player as int, i) is Some ==> exists|k: int|
                    0 <= k < r@.len() && (#[trigger] r@[k]).0 == i,
            forall|k1: int, k2: int| 0 <= k1 < k2 < r@.len() ==> r@[k1].0 < r@[k2].0,
    {
        let mut r: Vec<(usize, PlayedCard)> = Vec::new();
        let mut i: usize = 0;
        while i < 4
            invariant
                self@.wf(),
                player < 2,
                i <= 4,
                forall|k: int|
                    0 <= k < r@.len() ==> (#[trigger] r@[k]).0 < i && self@.slot(
                        player as int,
                        r@[k].0 as int,
                    ) is Some && r@[k].1@ == self@.slot(player as int, r@[k].0 as int)->0@,
                forall|j: int|
                    0 <= j < i && self@.slot(player as int, j) is Some ==> exists|k: int|
                        0 <= k < r@.len() && (#[trigger] r@[k]).0 == j,
                forall|k1: int, k2: int| 0 <= k1 < k2 < r@.len() ==> r@[k1].0 < r@[k2].0,
            decreases 4 - i,
        {
            let ghost pre_r = r@;
            match &self.in_play_pokemon[player][i] {
                Some(pc) => {
                    r.push((i, pc.clone()));
                },
                None => {},
            }
            proof {
                assert forall|j: int|
                    0 <= j < i + 1 && self@.slot(player as int, j) is Some implies exists|k: int|
                    0 <= k < r@.len() && (#[trigger] r@[k]).0 == j by {
                    if j < i {
                        let k0 = choose|k: int| 0 <= k < pre_r.len() && (#[trigger] pre_r[k]).0 == j;
                        assert(r@[k0].0 == j);
                    } else {
                        assert(r@[r@.len() - 1].0 == i);
                    }
                }
            }
            i += 1;
        }
        r
    }

    /// The occupied bench slots (indices 1 to 3) of a player's side.
    pub fn enumerate_bench_pokemon(&self, player: usize) -> (r: Vec<(usize, PlayedCard)>)
        requires
            self@.wf(),
            player < 2,
        ensures
            forall|k: int|
                0 <= k < r@.len() ==> 1 <= (#[trigger] r@[k]).0 < 4 && self@.slot(
                    player as int,
                    r@[k].0 as int,
                ) is Some && r@[k].1@ == self@.slot(player as int, r@[k].0 as int)->0@,
            forall|i: int|
                1 <= i < 4 && self@.slot(player as int, i) is Some ==> exists|k: int|
                    0 <= k < r@.len() && (#[trigger] r@[k]).0 == i,
            forall|k1: int, k2: int| 0 <= k1 < k2 < r@.len() ==> r@[k1].0 < r@[k2].0,
    {
        let mut r: Vec<(usize, PlayedCard)> = Vec::new();
        let mut i: usize = 1;
        while i < 4
            invariant
                self@.wf(),
                player < 2,
                1 <= i <= 4,
                forall|k: int|
                    0 <= k < r@.len() ==> 1 <= (#[trigger] r@[k]).0 < i && self@.slot(
                        player as int,
                        r@[k].0 as int,
                    ) is Some && r@[k].1@ == self@.slot(player as int, r@[k].0 as int)->0@,
                forall|j: int|
                    1 <= j < i && self@.slot(player as int, j) is Some ==> exists|k: int|
                        0 <= k < r@.len() && (#[trigger] r@[k]).0 == j,
                forall|k1: int, k2: int| 0 <= k1 < k2 < r@.len() ==> r@[k1].0 < r@[k2].0,
            decreases 4 - i,
        {
            let ghost pre_r = r@;
            match &self.in_play_pokemon[player][i] {
                Some(pc) => {
                    r.push((i, pc.clone()));
                },
                None => {},
            }
            proof {
                assert forall|j: int|
                    1 <= j < i + 1 && self@.slot(player as int, j) is Some implies exists|k: int|
                    0 <= k < r@.len() && (#[trigger] r@[k]).0 == j by {
                    if j < i {
                        let k0 = choose|k: int| 0 <= k < pre_r.len() && (#[trigger] pre_r[k]).0 == j;
                        assert(r@[k0].0 == j);
                    } else {
                        assert(r@[r@.len() - 1].0 == i);
                    }
                }
            }
            i += 1;
        }
        r
    }

    /// Queues a draw for `actor` as a sub-decision frame.
    pub fn queue_draw_action(&mut self, actor: usize)
        requires
            old(self)@.wf(),
            actor < 2,
        ensures
            final(self)@.wf(),
            final(self)@ =~~= (StateV {
                move_generation_stack: old(self)@.move_generation_stack.push(
                    (actor, seq![SimpleAction::DrawCard]),
                ),
                ..old(self)@
            }),
    {
        let mut frame: Vec<SimpleAction> = Vec::new();
        frame.push(SimpleAction::DrawCard);
        self.move_generation_stack.push((actor, frame));
        proof {
            assert(self@.move_generation_stack =~~= old(self)@.move_generation_stack.push(
                (actor, seq![SimpleAction::DrawCard]),
            ));
            assert(self@ =~~= (StateV {
                move_generation_stack: self@.move_generation_stack,
                ..old(self)@
            }));
        }
    }

    /// The player's active Pokemon.
    pub fn get_active(&self, player: usize) -> (r: &PlayedCard)
        requires
            self@.wf(),
            player < 2,
            self@.slot(player as int, 0) is Some,
        ensures
            *r == self@.slot(player as int, 0)->0,
    {
        match &self.in_play_pokemon[player][0] {
            Some(pc) => pc,
            None => unreached(),
        }
    }

    /// How many of the player's fielded Pokemon are of the given elemental type.
    pub fn num_in_play_of_type(&self, player: usize, energy: EnergyType) -> (r: usize)
        requires
            self@.wf(),
            player < 2,
        ensures
            r == spec_count_of_type(self@.in_play_pokemon[player as int], energy, 4),
    {
        let mut count: usize = 0;
        let mut i: usize = 0;
        while i < 4
            invariant
                self@.wf(),
                player < 2,
                i <= 4,
                count <= i,
                count == spec_count_of_type(self@.in_play_pokemon[player as int], energy, i as int),
            decreases 4 - i,
        {
            match &self.in_play_pokemon[player][i] {
                Some(pc) => {
                    match pc.get_energy_type() {
                        Some(e) => {
                            if e == energy {
                                count += 1;
                            }
                        },
                        None => {},
                    }
                },
                None => {},
            }
            i += 1;
        }
        count
    }

    /// Hands the turn to the other player: bumps the turn counter, clears the
    /// per-turn flags, queues the new player's draw, and generates their
    /// energy for the turn. No Supporter has been played and no retreat made
    /// on the turn that begins.
    pub fn advance_turn(&mut self, rng: &mut rand::rngs::StdRng)
        requires
            old(self)@.wf(),
            old(self)@.turn_count < 100,
        ensures
            final(self)@.wf(),
            final(self)@ =~~= (StateV {
                turn_count: (old(self)@.turn_count + 1) as u8,
                current_player: (1 - old(self)@.current_player as int) as usize,
                move_generation_stack: old(self)@.move_generation_stack.push(
                    ((1 - old(self)@.current_player as int) as usize, seq![SimpleAction::DrawCard]),
                ),
                current_energy: final(self)@.current_energy,
                in_play_pokemon: final(self)@.in_play_pokemon,
                has_played_support: false,
                has_retreated: false,
                ..old(self)@
            }),
            final(self)@.turn_count == old(self)@.turn_count + 1,
            !final(self)@.has_played_support,
            !final(self)@.has_retreated,
            old(self)@.decks[1 - old(self)@.current_player as int].energy_types.len() > 0
                ==> final(self)@.current_energy is Some,
            forall|p: int, i: int|
                0 <= p < 2 && 0 <= i < 4 ==> final(self)@.slot(p, i) == spec_reset_slot(
                    old(self)@.slot(p, i),
                ),
            final(self)@.same_card_counts(old(self)@),
    {
        self.current_player = (self.current_player + 1) % 2;
        self.turn_count = self.turn_count + 1;
        let ghost s1 = self@;
        self.reset_turn_states();
        let ghost s2 = self@;
        let actor = self.current_player;
        self.queue_draw_action(actor);
        self.generate_energy(rng);
        proof {
            assert(self@.in_play_pokemon == s2.in_play_pokemon);
            assert forall|p: int, i: int| 0 <= p < 2 && 0 <= i < 4 implies self@.slot(p, i)
                == spec_reset_slot(old(self)@.slot(p, i)) by {
                assert(s2.slot(p, i) == spec_reset_slot(s1.slot(p, i)));
                assert(s1.slot(p, i) == old(self)@.slot(p, i));
            }
            assert forall|p: int| 0 <= p < 2 implies self@.card_count(p) == old(self)@.card_count(
                p,
            ) by {
                assert(s2.card_count(p) == s1.card_count(p));
                assert(s1.card_count(p) == old(self)@.card_count(p));
                assert(self@.card_count(p) == s2.card_count(p));
            }
        }
    }
}


/// Whether the hand holds a card equal to `card`, under the engine's card
/// identity: same kind, same printed identifier.
pub fn first_card_index_exec(hand: &Vec<Card>, card: &Card) -> (r: bool)
    ensures
        r == (first_card_index(hand@, *card) >= 0),
{
    proof {
        lemma_first_card_index(hand@, *card);
    }
    let mut j: usize = 0;
    while j < hand.len()
        invariant
            j <= hand@.len(),
            forall|k: int| 0 <= k < j ==> !crate::types::spec_card_eq(hand@[k], *card),
            first_card_index(hand@, *card) < 0 ==> forall|k: int|
                0 <= k < hand@.len() ==> !crate::types::spec_card_eq(hand@[k], *card),
            first_card_index(hand@, *card) >= 0 ==> crate::types::spec_card_eq(
                hand@[first_card_index(hand@, *card)],
                *card,
            ),
        decreases hand@.len() - j,
    {
        if &hand[j] == card {
            return true;
        }
        j += 1;
    }
    false
}


impl State {
    /// Sets a match up: both decks are shuffled so that an opening hand can
    /// hold a Basic, both players draw five cards, and a fair coin picks the
    /// starting player. Whenever a deck holds a Basic Pokemon at all, the
    /// opening hand drawn from it holds one.
    pub fn initialize(deck_a: &Deck, deck_b: &Deck, rng: &mut rand::rngs::StdRng) -> (r: State)
        ensures
            r@.wf(),
            r@.winner is None,
            r@.turn_count == 0,
            r@.move_generation_stack.len() == 0,
            r@.current_energy is None,
            !r@.has_played_support,
            !r@.has_retreated,
            forall|p: int, i: int| 0 <= p < 2 && 0 <= i < 4 ==> r@.slot(p, i) is None,
            r@.card_count(0) == deck_a@.cards.len(),
            r@.card_count(1) == deck_b@.cards.len(),
            r@.hands[0].len() == vstd::math::min(5, deck_a@.cards.len() as int),
            r@.hands[1].len() == vstd::math::min(5, deck_b@.cards.len() as int),
            crate::deck::has_basic_among(deck_a@.cards, deck_a@.cards.len() as int)
                ==> crate::deck::has_basic_among(r@.hands[0], 5),
            crate::deck::has_basic_among(deck_b@.cards, deck_b@.cards.len() as int)
                ==> crate::deck::has_basic_among(r@.hands[1], 5),
            r@.discard_piles[0].len() == 0 && r@.discard_piles[1].len() == 0,
            r@.decks[0].cards.len() == deck_a@.cards.len() - vstd::math::min(
                5,
                deck_a@.cards.len() as int,
            ),
            r@.decks[1].cards.len() == deck_b@.cards.len() - vstd::math::min(
                5,
                deck_b@.cards.len() as int,
            ),
            (r@.hands[0] + r@.decks[0].cards).map_values(|c: Card| c@).to_multiset()
                == deck_a@.cards.map_values(|c: Card| c@).to_multiset(),
            (r@.hands[1] + r@.decks[1].cards).map_values(|c: Card| c@).to_multiset()
                == deck_b@.cards.map_values(|c: Card| c@).to_multiset(),
    {
        let mut state = State::new(deck_a, deck_b);
        proof {
            if crate::deck::has_basic_among(deck_a@.cards, deck_a@.cards.len() as int) {
                let i = choose|i: int|
                    0 <= i < deck_a@.cards.len() && (#[trigger] deck_a@.cards[i]).spec_is_basic();
                assert(state@.decks[0].cards.map_values(|c: Card| c@)[i] == deck_a@.cards.map_values(
                    |c: Card| c@,
                )[i]);
                assert(state@.decks[0].cards[i]@ == deck_a@.cards[i]@);
                crate::types::lemma_view_eq_is_basic(
                    state@.decks[0].cards[i],
                    deck_a@.cards[i],
                );
                assert(crate::deck::has_basic_among(
                    state@.decks[0].cards,
                    state@.decks[0].cards.len() as int,
                ));
            }
            if crate::deck::has_basic_among(deck_b@.cards, deck_b@.cards.len() as int) {
                let i = choose|i: int|
                    0 <= i < deck_b@.cards.len() && (#[trigger] deck_b@.cards[i]).spec_is_basic();
                assert(state@.decks[1].cards.map_values(|c: Card| c@)[i] == deck_b@.cards.map_values(
                    |c: Card| c@,
                )[i]);
                assert(state@.decks[1].cards[i]@ == deck_b@.cards[i]@);
                crate::types::lemma_view_eq_is_basic(
                    state@.decks[1].cards[i],
                    deck_b@.cards[i],
                );
                assert(crate::deck::has_basic_among(
                    state@.decks[1].cards,
                    state@.decks[1].cards.len() as int,
                ));
            }
        }
        let ghost fresh = state@;
        state.decks[0].shuffle(true, rng);
        proof {
            assert(state@.decks =~~= fresh.decks.update(0, state@.decks[0]));
            assert(state@ =~~= (StateV { decks: state@.decks, ..fresh }));
        }
        let ghost mid = state@;
        state.decks[1].shuffle(true, rng);
        proof {
            assert(state@.decks =~~= mid.decks.update(1, state@.decks[1]));
            assert(state@ =~~= (StateV { decks: state@.decks, ..mid }));
        }
        let ghost shuffled = state@;
        let mut k: usize = 0;
        while k < 5
            invariant
                state@.wf(),
                k <= 5,
                shuffled.wf(),
                shuffled.hands[0].len() == 0,
                shuffled.hands[1].len() == 0,
                state@ =~~= (StateV { hands: state@.hands, decks: state@.decks, ..shuffled }),
                forall|q: int|
                    0 <= q < 2 ==> #[trigger] state@.hands[q] == shuffled.decks[q].cards.take(
                        vstd::math::min(k as int, shuffled.decks[q].cards.len() as int),
                    ),
                forall|q: int|
                    0 <= q < 2 ==> #[trigger] state@.decks[q].cards == shuffled.decks[q].cards.skip(
                        vstd::math::min(k as int, shuffled.decks[q].cards.len() as int),
                    ),
                forall|q: int|
                    0 <= q < 2 ==> (#[trigger] state@.decks[q]).energy_types
                        == shuffled.decks[q].energy_types,
            decreases 5 - k,
        {
            let ghost before = state@;
            state.maybe_draw_card(0);
            state.maybe_draw_card(1);
            proof {
                assert forall|q: int|
                    0 <= q < 2 implies #[trigger] state@.hands[q] == shuffled.decks[q].cards.take(
                        vstd::math::min(k + 1int, shuffled.decks[q].cards.len() as int),
                    ) && state@.decks[q].cards == shuffled.decks[q].cards.skip(
                        vstd::math::min(k + 1int, shuffled.decks[q].cards.len() as int),
                    ) by {
                    let full = shuffled.decks[q].cards;
                    let m = vstd::math::min(k as int, full.len() as int);
                    if m < full.len() {
                        assert(before.decks[q].cards[0] == full[m]) by {
                            assert(before.decks[q].cards == full.skip(m));
                        }
                        assert(full.take(m).push(full[m]) =~= full.take(m + 1));
                        assert(full.skip(m).drop_first() =~= full.skip(m + 1));
                    } else {
                        assert(full.take(m) =~= full);
                        assert(full.skip(m) =~= Seq::<Card>::empty());
                    }
                }
            }
            k += 1;
        }
        let start = crate::rng::rand_index(rng, 2);
        state.current_player = start;
        proof {
            assert(state@.in_play_pokemon == fresh.in_play_pokemon);
            assert forall|p: int, i: int| 0 <= p < 2 && 0 <= i < 4 implies state@.slot(
                p,
                i,
            ) is None by {
                assert(fresh.slot(p, i) is None);
            }
            assert forall|q: int| 0 <= q < 2 implies state@.card_count(q) == shuffled.card_count(
                q,
            ) by {
                let full = shuffled.decks[q].cards;
                let m = vstd::math::min(5int, full.len() as int);
                assert(state@.hands[q].len() + state@.decks[q].cards.len() == full.len());
            }
            if crate::deck::has_basic_among(shuffled.decks[0].cards, 5) {
                let i = choose|i: int|
                    0 <= i < 5 && i < shuffled.decks[0].cards.len() && (
                    #[trigger] shuffled.decks[0].cards[i]).spec_is_basic();
                assert(state@.hands[0][i] == shuffled.decks[0].cards[i]);
                assert(crate::deck::has_basic_among(state@.hands[0], 5));
            }
            if crate::deck::has_basic_among(shuffled.decks[1].cards, 5) {
                let i = choose|i: int|
                    0 <= i < 5 && i < shuffled.decks[1].cards.len() && (
                    #[trigger] shuffled.decks[1].cards[i]).spec_is_basic();
                assert(state@.hands[1][i] == shuffled.decks[1].cards[i]);
                assert(crate::deck::has_basic_among(state@.hands[1], 5));
            }
            assert(state@.discard_piles[0].len() == 0 && state@.discard_piles[1].len() == 0);
            assert forall|q: int| 0 <= q < 2 implies state@.hands[q] + state@.decks[q].cards
                == shuffled.decks[q].cards by {
                let full = shuffled.decks[q].cards;
                let m = vstd::math::min(5int, full.len() as int);
                assert(full.take(m) + full.skip(m) =~= full);
            }
            assert(state@.hands[0] + state@.decks[0].cards == shuffled.decks[0].cards);
            assert(state@.hands[1] + state@.decks[1].cards == shuffled.decks[1].cards);
            assert(shuffled.decks[0].cards.map_values(|c: Card| c@).to_multiset()
                == fresh.decks[0].cards.map_values(|c: Card| c@).to_multiset());
            assert(shuffled.decks[1].cards.map_values(|c: Card| c@).to_multiset()
                == fresh.decks[1].cards.map_values(|c: Card| c@).to_multiset());
            assert(fresh.decks[0].cards.map_values(|c: Card| c@) == deck_a@.cards.map_values(
                |c: Card| c@,
            ));
            assert(fresh.decks[1].cards.map_values(|c: Card| c@) == deck_b@.cards.map_values(
                |c: Card| c@,
            ));
        }
        state
    }
}

} // verus!

verus! {

/// The canonical name of a card, shared by both card kinds.
pub fn canonical_name(card: &Card) -> (r: &String)
    ensures
        r@ == card.spec_name(),
{
    match card {
        Card::Pokemon(pokemon_card) => &pokemon_card.name,
        Card::Trainer(trainer_card) => &trainer_card.name,
    }
}

/// The canonical names of a list of cards, in order.
pub fn to_canonical_names(cards: &Vec<Card>) -> (r: Vec<String>)
    ensures
        r@.len() == cards@.len(),
        forall|i: int| 0 <= i < r@.len() ==> (#[trigger] r@[i])@ == cards@[i].spec_name(),
{
    let mut r: Vec<String> = Vec::new();
    let mut i: usize = 0;
    while i < cards.len()
        invariant
            i <= cards@.len(),
            r@.len() == i,
            forall|j: int| 0 <= j < i ==> (#[trigger] r@[j])@ == cards@[j].spec_name(),
        decreases cards@.len() - i,
    {
        r.push(canonical_name(&cards[i]).clone());
        i += 1;
    }
    r
}

/// What `format_card` renders: the name, the remaining hit points, and how
/// many energy are attached; an empty slot renders as nothing.
pub open spec fn spec_format_card(slot: Option<PlayedCard>) -> Seq<char> {
    match slot {
        Some(pc) => pc.card.spec_name() + "("@ + crate::errors::spec_decimal(
            pc.remaining_hp as int,
        ) + "hp,"@ + crate::errors::spec_decimal(pc.attached_energy@.len() as int) + ")"@,
        None => ""@,
    }
}

/// Renders one in-play slot for a trace line.
pub fn format_card(slot: &Option<PlayedCard>) -> (r: String)
    ensures
        r@ == spec_format_card(*slot),
{
    match slot {
        Some(pc) => {
            let mut s = pc.get_name();
            s.append("(");
            let d = crate::errors::decimal_string(pc.remaining_hp as u128);
            s.append(d.as_str());
            s.append("hp,");
            let d = crate::errors::decimal_string(pc.attached_energy.len() as u128);
            s.append(d.as_str());
            s.append(")");
            proof {
                assert(s@ =~= spec_format_card(*slot));
            }
            s
        },
        None => {
            let r = String::new();
            proof {
                reveal_strlit("");
                assert(r@ =~= ""@);
            }
            r
        },
    }
}

/// Renders a row of in-play slots for a trace line.
pub fn format_cards(played_cards: &Vec<Option<PlayedCard>>) -> (r: Vec<String>)
    ensures
        r@.len() == played_cards@.len(),
        forall|i: int|
            0 <= i < r@.len() ==> (#[trigger] r@[i])@ == spec_format_card(played_cards@[i]),
{
    let mut r: Vec<String> = Vec::new();
    let mut i: usize = 0;
    while i < played_cards.len()
        invariant
            i <= played_cards@.len(),
            r@.len() == i,
            forall|j: int|
                0 <= j < i ==> (#[trigger] r@[j])@ == spec_format_card(played_cards@[j]),
        decreases played_cards@.len() - i,
    {
        r.push(format_card(&played_cards[i]));
        i += 1;
    }
    r
}

impl State {
    /// A one-screen account of the match: both hands by card name and both
    /// boards slot by slot.
    pub fn debug_string(&self) -> (r: String)
        requires
            self@.wf(),
    {
        let mut s = String::from_str("P1 Hand:\t");
        let names = to_canonical_names(&self.hands[0]);
        let joined = crate::errors::join_strings(&names, ", ");
        s.append(joined.as_str());
        s.append("\nP1 InPlay:\t");
        let row = format_cards(&self.in_play_pokemon[0]);
        let joined = crate::errors::join_strings(&row, ", ");
        s.append(joined.as_str());
        s.append("\nP2 InPlay:\t");
        let row = format_cards(&self.in_play_pokemon[1]);
        let joined = crate::errors::join_strings(&row, ", ");
        s.append(joined.as_str());
        s.append("\nP2 Hand:\t");
        let names = to_canonical_names(&self.hands[1]);
        let joined = crate::errors::join_strings(&names, ", ");
        s.append(joined.as_str());
        s
    }
}

} // verus!
