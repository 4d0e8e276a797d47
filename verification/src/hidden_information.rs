use vstd::prelude::*;
use crate::actions::SimpleAction;
use crate::state::State;
use crate::types::{spec_card_eq, Card, EnergyType};

verus! {

/// What one player may legitimately know about hidden zones: for each side,
/// the cards still possibly in that side's deck with how many copies, and
/// the sizes of the hands. Counts are kept as an association list so that
/// everything stays plain data.
#[derive(Debug, Clone, PartialEq, Eq)]
pub struct HiddenKnowledge {
    /// For each observer, the cards they know may remain in the opposing
    /// deck, with counts.
    pub known_deck_contents: Vec<Vec<(Card, usize)>>,
    /// The known sizes of the two hands.
    pub known_hand_sizes: Vec<usize>,
    /// Whether an observer sees everything, as a human spectator would.
    pub has_perfect_info: Vec<bool>,
}

/// Whether the knowledge tables have their fixed two-player shape.
pub open spec fn spec_hk_wf(k: HiddenKnowledge) -> bool {
    k.known_deck_contents@.len() == 2 && k.known_hand_sizes@.len() == 2
        && k.has_perfect_info@.len() == 2
}

impl Default for HiddenKnowledge {
    /// No knowledge at all: empty tables, empty hands, no perfect information.
    fn default() -> (r: Self)
        ensures
            spec_hk_wf(r),
            r.known_deck_contents@[0]@.len() == 0,
            r.known_deck_contents@[1]@.len() == 0,
            r.known_hand_sizes@ =~= seq![0usize, 0usize],
            r.has_perfect_info@ =~= seq![false, false],
    {
        let mut known_deck_contents: Vec<Vec<(Card, usize)>> = Vec::new();
        known_deck_contents.push(Vec::new());
        known_deck_contents.push(Vec::new());
        let mut known_hand_sizes: Vec<usize> = Vec::new();
        known_hand_sizes.push(0);
        known_hand_sizes.push(0);
        let mut has_perfect_info: Vec<bool> = Vec::new();
        has_perfect_info.push(false);
        has_perfect_info.push(false);
        let r = HiddenKnowledge { known_deck_contents, known_hand_sizes, has_perfect_info };
        proof {
            assert(r.known_hand_sizes@ =~= seq![0usize, 0usize]);
            assert(r.has_perfect_info@ =~= seq![false, false]);
        }
        r
    }
}

/// Adds one copy of `card` to a count table: an existing entry for an equal
/// card is incremented, otherwise a fresh entry is appended.
fn add_card_count(counts: &mut Vec<(Card, usize)>, card: &Card)
    ensures
        final(counts)@.len() >= old(counts)@.len(),
{
    let mut i: usize = 0;
    let len = counts.len();
    while i < len
        invariant
            len == counts@.len(),
            counts@ == old(counts)@,
            i <= len,
        decreases len - i,
    {
        if &counts[i].0 == card {
            let cur = counts[i].1;
            let next = if cur < usize::MAX {
                cur + 1
            } else {
                cur
            };
            counts[i].1 = next;
            return ;
        }
        i += 1;
    }
    counts.push((card.clone(), 1));
}

impl HiddenKnowledge {
    /// What each player initially knows: the opponent's full deck list, and
    /// that both opening hands hold five cards.
    pub fn from_decklists(deck1_cards: &Vec<Card>, deck2_cards: &Vec<Card>) -> (r: Self)
        ensures
            spec_hk_wf(r),
            r.known_hand_sizes@ =~= seq![5usize, 5usize],
    {
        let mut r = HiddenKnowledge::default();
        let mut i: usize = 0;
        while i < deck1_cards.len()
            invariant
                spec_hk_wf(r),
                i <= deck1_cards@.len(),
            decreases deck1_cards@.len() - i,
        {
            let ghost pre = r.known_deck_contents@;
            let card = &deck1_cards[i];
            add_card_count(&mut r.known_deck_contents[1], card);
            i += 1;
        }
        let mut j: usize = 0;
        while j < deck2_cards.len()
            invariant
                spec_hk_wf(r),
                j <= deck2_cards@.len(),
            decreases deck2_cards@.len() - j,
        {
            let card = &deck2_cards[j];
            add_card_count(&mut r.known_deck_contents[0], card);
            j += 1;
        }
        r.known_hand_sizes[0] = 5;
        r.known_hand_sizes[1] = 5;
        proof {
            assert(r.known_hand_sizes@ =~= seq![5usize, 5usize]);
        }
        r
    }

    /// How many copies of `card` the observer still counts in the opposing deck.
    pub fn known_count(&self, observer: usize, card: &Card) -> (r: usize)
        requires
            spec_hk_wf(*self),
            observer < 2,
    {
        let counts = &self.known_deck_contents[observer];
        let mut i: usize = 0;
        let len = counts.len();
        while i < len
            invariant
                len == counts@.len(),
                i <= len,
            decreases len - i,
        {
            if &counts[i].0 == card {
                return counts[i].1;
            }
            i += 1;
        }
        0
    }

    /// Updates the tables when a player reveals a card by playing it from
    /// hand: their opponent strikes one possible deck copy, and the player's
    /// hand is known to have shrunk.
    pub fn card_played_from_hand(&mut self, player: usize, card: &Card)
        requires
            spec_hk_wf(*old(self)),
            player < 2,
        ensures
            spec_hk_wf(*final(self)),
            final(self).known_hand_sizes@[player as int] == if old(self).known_hand_sizes@[player
                as int] > 0 {
                (old(self).known_hand_sizes@[player as int] - 1) as usize
            } else {
                0usize
            },
    {
        let opponent = (player + 1) % 2;
        let counts = &mut self.known_deck_contents[opponent];
        let mut i: usize = 0;
        let len = counts.len();
        while i < len
            invariant
                len == counts@.len(),
                i <= len,
            decreases len - i,
        {
            if &counts[i].0 == card {
                let cur = counts[i].1;
                if cur > 0 {
                    counts[i].1 = cur - 1;
                }
                break ;
            }
            i += 1;
        }
        let cur = self.known_hand_sizes[player];
        self.known_hand_sizes[player] = if cur > 0 {
            cur - 1
        } else {
            0
        };
    }

    /// Updates the tables when a player draws: their hand is known to have grown.
    pub fn card_drawn(&mut self, player: usize)
        requires
            spec_hk_wf(*old(self)),
            player < 2,
        ensures
            spec_hk_wf(*final(self)),
            old(self).known_hand_sizes@[player as int] < usize::MAX ==> final(self).known_hand_sizes@[player as int] == old(self).known_hand_sizes@[player as int] + 1,
    {
        let cur = self.known_hand_sizes[player];
        self.known_hand_sizes[player] = if cur < usize::MAX {
            cur + 1
        } else {
            cur
        };
    }
}

/// An action outcome phrased without revealing hidden information.
#[derive(Debug, Clone)]
pub enum HiddenOutcome {
    /// Draw cards without revealing what they are.
    DrawCards { player: usize, count: usize },
    /// Search the deck for cards matching a filter.
    SearchDeck { player: usize, filter: DeckSearchFilter, max_cards: usize },
    /// Shuffle the hand into the deck and draw afresh.
    ShuffleHandAndDraw { player: usize, draw_count: usize },
    /// Look at the top card and act on it.
    LookAtTopCard { player: usize, decision: TopCardDecision },
}

/// What a deck search may look for.
#[derive(Debug, Clone)]
pub enum DeckSearchFilter {
    Basic,
    OfType(EnergyType),
    Specific(Card),
    Any,
}

/// What to do with a peeked top card.
#[derive(Debug, Clone)]
pub enum TopCardDecision {
    PutInHand,
    PutOnBottom,
    Discard,
}

/// The information-safe forecast of Professor's Research: two hidden draws.
pub fn safe_professor_research(state: &State, actor: usize) -> (r: Vec<HiddenOutcome>)
    ensures
        r@.len() == 1,
        r@[0] matches HiddenOutcome::DrawCards { player, count } && player == actor && count == 2,
{
    let _ = state;
    let mut r: Vec<HiddenOutcome> = Vec::new();
    r.push(HiddenOutcome::DrawCards { player: actor, count: 2 });
    r
}

/// The information-safe forecast of Poke Ball: one hidden Basic search.
pub fn safe_pokeball(state: &State, actor: usize) -> (r: Vec<HiddenOutcome>)
    ensures
        r@.len() == 1,
        r@[0] matches HiddenOutcome::SearchDeck { player, filter, max_cards } && player == actor
            && max_cards == 1,
{
    let _ = state;
    let mut r: Vec<HiddenOutcome> = Vec::new();
    r.push(
        HiddenOutcome::SearchDeck { player: actor, filter: DeckSearchFilter::Basic, max_cards: 1 },
    );
    r
}

/// The information-safe forecast of Red Card: the opponent reshuffles and
/// draws three, all hidden.
pub fn safe_red_card(state: &State, actor: usize) -> (r: Vec<HiddenOutcome>)
    requires
        actor < 2,
    ensures
        r@.len() == 1,
        r@[0] matches HiddenOutcome::ShuffleHandAndDraw { player, draw_count } && player == 1
            - actor && draw_count == 3,
{
    let _ = state;
    let opponent = (actor + 1) % 2;
    let mut r: Vec<HiddenOutcome> = Vec::new();
    r.push(HiddenOutcome::ShuffleHandAndDraw { player: opponent, draw_count: 3 });
    r
}

/// The information-safe forecast of Mythical Slab: one hidden peek.
pub fn safe_mythical_slab(state: &State, actor: usize) -> (r: Vec<HiddenOutcome>)
    ensures
        r@.len() == 1,
        r@[0] matches HiddenOutcome::LookAtTopCard { player, decision } && player == actor,
{
    let _ = state;
    let mut r: Vec<HiddenOutcome> = Vec::new();
    r.push(HiddenOutcome::LookAtTopCard { player: actor, decision: TopCardDecision::PutInHand });
    r
}

/// Whether a card passes a deck-search filter.
pub open spec fn spec_search_matches(filter: DeckSearchFilter, c: Card) -> bool {
    match filter {
        DeckSearchFilter::Basic => c.spec_is_basic(),
        DeckSearchFilter::OfType(e) => c.spec_type() == Some(e),
        DeckSearchFilter::Specific(t) => spec_card_eq(c, t),
        DeckSearchFilter::Any => true,
    }
}

/// How many cards of the sequence pass a deck-search filter.
pub open spec fn spec_search_count(filter: DeckSearchFilter, deck: Seq<Card>) -> int
    decreases deck.len(),
{
    if deck.len() == 0 {
        0
    } else {
        spec_search_count(filter, deck.drop_last()) + if spec_search_matches(filter, deck.last()) {
            1int
        } else {
            0int
        }
    }
}

/// Turns a hidden outcome into the concrete actions that realise it, now
/// that the engine may look: draws become draw actions; a search yields one
/// draw per match found, up to the limit.
pub fn resolve_hidden_outcome(
    outcome: &HiddenOutcome,
    state: &State,
    rng: &mut rand::rngs::StdRng,
) -> (r: Vec<SimpleAction>)
    requires
        state@.wf(),
    ensures
        forall|k: int| 0 <= k < r@.len() ==> (#[trigger] r@[k]) == SimpleAction::DrawCard,
        match *outcome {
            HiddenOutcome::DrawCards { count, .. } => r@.len() == count,
            HiddenOutcome::ShuffleHandAndDraw { draw_count, .. } => r@.len() == draw_count,
            HiddenOutcome::LookAtTopCard { .. } => r@.len() == 0,
            HiddenOutcome::SearchDeck { player, filter, max_cards } => player < 2 ==> r@.len()
                as int == vstd::math::min(
                max_cards as int,
                spec_search_count(filter, state@.decks[player as int].cards),
            ),
        },
{
    let _ = rng;
    let mut r: Vec<SimpleAction> = Vec::new();
    match outcome {
        HiddenOutcome::DrawCards { player, count } => {
            let _ = player;
            let mut k: usize = 0;
            let n = *count;
            while k < n
                invariant
                    k <= n,
                    r@.len() == k,
                    forall|j: int| 0 <= j < r@.len() ==> (#[trigger] r@[j]) == SimpleAction::DrawCard,
                decreases n - k,
            {
                r.push(SimpleAction::DrawCard);
                k += 1;
            }
        },
        HiddenOutcome::SearchDeck { player, filter, max_cards } => {
            if *player < 2 {
                let ghost deck = state@.decks[*player as int].cards;
                let deck_len = state.decks[*player].cards.len();
                let mut found: usize = 0;
                let mut i: usize = 0;
                while i < deck_len
                    invariant
                        *player < 2,
                        state@.wf(),
                        deck == state@.decks[*player as int].cards,
                        deck_len == deck.len(),
                        i <= deck_len,
                        found <= i,
                        found as int == vstd::math::min(
                            *max_cards as int,
                            spec_search_count(*filter, deck.take(i as int)),
                        ),
                        r@.len() == found,
                        forall|j: int|
                            0 <= j < r@.len() ==> (#[trigger] r@[j]) == SimpleAction::DrawCard,
                    decreases deck_len - i,
                {
                    let card = &state.decks[*player].cards[i];
                    let matches_filter = match filter {
                        DeckSearchFilter::Basic => crate::deck::is_basic(card),
                        DeckSearchFilter::OfType(e) => {
                            match card.get_type() {
                                Some(t) => t == *e,
                                None => false,
                            }
                        },
                        DeckSearchFilter::Specific(target) => card == target,
                        DeckSearchFilter::Any => true,
                    };
                    proof {
                        assert(deck.take(i + 1).drop_last() =~= deck.take(i as int));
                        assert(deck.take(i + 1).last() == deck[i as int]);
                        assert(matches_filter == spec_search_matches(*filter, deck[i as int]));
                    }
                    if matches_filter && found < *max_cards {
                        r.push(SimpleAction::DrawCard);
                        found += 1;
                    }
                    i += 1;
                }
                proof {
                    assert(deck.take(deck_len as int) =~= deck);
                }
            }
        },
        HiddenOutcome::ShuffleHandAndDraw { player, draw_count } => {
            let _ = player;
            let mut k: usize = 0;
            let n = *draw_count;
            while k < n
                invariant
                    k <= n,
                    r@.len() == k,
                    forall|j: int| 0 <= j < r@.len() ==> (#[trigger] r@[j]) == SimpleAction::DrawCard,
                decreases n - k,
            {
                r.push(SimpleAction::DrawCard);
                k += 1;
            }
        },
        HiddenOutcome::LookAtTopCard { .. } => {},
    }
    r
}

} // verus!
