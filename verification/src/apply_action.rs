use vstd::prelude::*;
use crate::actions::{Action, SimpleAction};
use crate::rng::rand_index;
use crate::trainer_actions::forecast_trainer_action_safe;
use crate::state::{State, StateV};

verus! {

/// Probabilities are exact fractions with this fixed denominator: an entry
/// `w` stands for the probability `w / 64`. Every distribution the engine
/// forecasts has a denominator dividing sixty-four, so nothing is rounded.
pub const PROB_ONE: u32 = 64;

/// Each entry is a probability in sixty-fourths; a forecast's entries always
/// add up to exactly `PROB_ONE`.
pub type Probabilities = Vec<u32>;

/// One possible resolution of a forecast action, as first-class data: the
/// commit step pairs it with the action to mutate the state.
#[derive(Debug, Clone, PartialEq, Eq)]
pub enum Outcome {
    /// The action resolves in the single way its kind prescribes.
    Deterministic,
    /// A trainer card resolves in the single way its card text prescribes;
    /// hidden information (a draw, a search) is resolved at commit time.
    TrainerPlay,
    /// Misty's coin chain came up with this many heads.
    MistyHeads(u32),
    /// The between-turns checkup: whether each sleeping active wakes. The
    /// flag for a Pokemon that is not asleep carries no information.
    CheckUp { actor_wakes: bool, opponent_wakes: bool },
}

/// The sum of a list of probability weights.
pub open spec fn spec_sum(s: Seq<u32>) -> int
    decreases s.len(),
{
    if s.len() == 0 {
        0
    } else {
        s[0] + spec_sum(s.drop_first())
    }
}


/// Unfolds `spec_sum` once at the front.
pub proof fn lemma_sum_first(s: Seq<u32>)
    requires
        s.len() > 0,
    ensures
        spec_sum(s) == s[0] + spec_sum(s.drop_first()),
{
}

/// The sum of an empty weight list.
pub proof fn lemma_sum_empty(s: Seq<u32>)
    requires
        s.len() == 0,
    ensures
        spec_sum(s) == 0,
{
}

/// One more element extends the prefix sum by that element.
pub proof fn lemma_sum_take_succ(s: Seq<u32>, i: int)
    requires
        0 <= i < s.len(),
    ensures
        spec_sum(s.take(i + 1)) == spec_sum(s.take(i)) + s[i],
    decreases i,
{
    if i == 0 {
        assert(s.take(1).drop_first() =~= s.take(0));
        assert(s.take(1)[0] == s[0]);
    } else {
        lemma_sum_take_succ(s.drop_first(), i - 1);
        assert(s.take(i + 1).drop_first() =~= s.drop_first().take(i));
        assert(s.take(i).drop_first() =~= s.drop_first().take(i - 1));
        assert(s.take(i + 1)[0] == s[0]);
        assert(s.take(i)[0] == s[0]);
        assert(s.drop_first()[i - 1] == s[i]);
    }
}

/// A prefix never outweighs the whole.
pub proof fn lemma_sum_take_le(s: Seq<u32>, i: int)
    requires
        0 <= i <= s.len(),
    ensures
        spec_sum(s.take(i)) <= spec_sum(s),
    decreases s.len() - i,
{
    if i == s.len() {
        assert(s.take(i) =~= s);
    } else {
        lemma_sum_take_succ(s, i);
        lemma_sum_take_le(s, i + 1);
    }
}

/// Whether this forecast obeys the probability laws: as many outcomes as
/// probabilities, at least one of each, no zero-probability entries, and a
/// total of exactly one.
pub open spec fn spec_valid_forecast(probs: Seq<u32>, outcomes: Seq<Outcome>) -> bool {
    &&& probs.len() == outcomes.len()
    &&& probs.len() >= 1
    &&& spec_sum(probs) == PROB_ONE
    &&& forall|i: int| 0 <= i < probs.len() ==> probs[i] > 0
}

/// Whether an action's forecast must consist of a single outcome because its
/// resolution depends on information the actor may not see: a draw, or the
/// trainer cards whose text reads hidden cards.
pub open spec fn spec_hidden_information_action(action: SimpleAction) -> bool {
    match action {
        SimpleAction::DrawCard => true,
        SimpleAction::Play { trainer_card } => trainer_card.numeric_id == 905
            || trainer_card.numeric_id == 906 || trainer_card.numeric_id == 907 || (
        trainer_card.numeric_id == 365),
        _ => false,
    }
}

/// Samples an index from a weight list that sums to `PROB_ONE`, drawing one
/// number below `PROB_ONE` from the generator.
pub(crate) fn sample_index(rng: &mut rand::rngs::StdRng, probs: &Probabilities) -> (r: usize)
    requires
        spec_sum(probs@) == PROB_ONE,
        probs@.len() >= 1,
    ensures
        r < probs@.len(),
{
    let roll_idx = rand_index(rng, 64);
    let roll = roll_idx as u32;
    let mut cum: u32 = 0;
    let mut i: usize = 0;
    while i < probs.len()
        invariant
            spec_sum(probs@) == PROB_ONE,
            i <= probs@.len(),
            cum == spec_sum(probs@.take(i as int)),
            roll >= cum,
            roll < 64,
        decreases probs@.len() - i,
    {
        proof {
            lemma_sum_take_succ(probs@, i as int);
            lemma_sum_take_le(probs@, i + 1);
        }
        if roll < cum + probs[i] {
            return i;
        }
        cum = cum + probs[i];
        i += 1;
    }
    proof {
        assert(probs@.take(probs@.len() as int) =~= probs@);
        assert(false);
    }
    0
}


/// What the trainer-play half of the prelude does: when the played card is
/// in the actor's hand, it moves from there to the actor's discard pile
/// (the last hand card taking its place), and a Supporter takes the one
/// Supporter play of the turn.
pub open spec fn spec_play_prelude(pre: StateV, post: StateV, actor: int, t: crate::types::TrainerCardV, supporter: bool) -> bool {
    let hand = pre.hands[actor];
    let i = first_trainer_index(hand, t);
    let moved = if i >= 0 {
        StateV {
            hands: pre.hands.update(actor, hand.update(i, hand.last()).drop_last()),
            discard_piles: pre.discard_piles.update(
                actor,
                pre.discard_piles[actor].push(hand[i]),
            ),
            ..pre
        }
    } else {
        pre
    };
    post == (StateV { has_played_support: moved.has_played_support || supporter, ..moved })
}

/// The position of the first card in `s` that is the given trainer card,
/// under the engine's card identity; negative when none is.
pub open spec fn first_trainer_index(s: Seq<crate::types::Card>, t: crate::types::TrainerCardV) -> int
    decreases s.len(),
{
    if s.len() == 0 {
        -1
    } else if s[0] matches crate::types::Card::Trainer(x) && x.id@ == t.id {
        0
    } else {
        let rest = first_trainer_index(s.drop_first(), t);
        if rest < 0 {
            -1
        } else {
            rest + 1
        }
    }
}

/// `first_trainer_index` agrees with `first_card_index` on the trainer card
/// wrapped as a card.
pub proof fn lemma_first_trainer_index(s: Seq<crate::types::Card>, t: crate::types::TrainerCard)
    ensures
        first_trainer_index(s, t@) == crate::state::first_card_index(
            s,
            crate::types::Card::Trainer(t),
        ),
    decreases s.len(),
{
    if s.len() > 0 {
        lemma_first_trainer_index(s.drop_first(), t);
    }
}

/// The prelude every freshly chosen action runs: an action resolving a
/// sub-decision consumes its frame from the stack; a fresh trainer play
/// moves the trainer from the actor's hand to their discard pile and, for a
/// Supporter, takes the one Supporter play of the turn.
pub fn apply_common_mutation(state: &mut State, action: &Action)
    requires
        old(state)@.wf(),
        action.actor < 2,
    ensures
        final(state)@.wf(),
        final(state)@.same_card_counts(old(state)@),
        action.is_stack ==> final(state)@ =~~= (StateV {
            move_generation_stack: if old(state)@.move_generation_stack.len() > 0 {
                old(state)@.move_generation_stack.drop_last()
            } else {
                old(state)@.move_generation_stack
            },
            ..old(state)@
        }),
        !action.is_stack ==> match action.action {
            SimpleAction::Play { trainer_card } => spec_play_prelude(
                old(state)@,
                final(state)@,
                action.actor as int,
                trainer_card@,
                trainer_card.trainer_card_type == crate::types::TrainerType::Supporter,
            ),
            _ => final(state)@ =~~= old(state)@,
        },
{
    if action.is_stack {
        let ghost pre = state@;
        if state.move_generation_stack.len() > 0 {
            state.move_generation_stack.pop();
            proof {
                assert(state@.move_generation_stack =~~= pre.move_generation_stack.drop_last());
                assert(state@ =~~= (StateV {
                    move_generation_stack: state@.move_generation_stack,
                    ..pre
                }));
            }
        } else {
            proof {
                assert(state@ =~~= pre);
            }
        }
        return ;
    }
    match &action.action {
        SimpleAction::Play { trainer_card } => {
            let card = crate::types::Card::Trainer(trainer_card.clone());
            let ghost hand = state@.hands[action.actor as int];
            proof {
                lemma_first_trainer_index(hand, *trainer_card);
                crate::state::lemma_first_card_index_congruence(
                    hand,
                    card,
                    crate::types::Card::Trainer(*trainer_card),
                );
            }
            let found = crate::state::first_card_index_exec(&state.hands[action.actor], &card);
            let ghost mid = state@;
            if found {
                state.discard_card_from_hand(action.actor, &card);
            }
            let ghost moved = state@;
            if matches!(trainer_card.trainer_card_type, crate::types::TrainerType::Supporter) {
                state.has_played_support = true;
            }
            proof {
                assert(state@ =~~= (StateV {
                    has_played_support: state@.has_played_support,
                    ..moved
                }));
                if found {
                    let p = action.actor as int;
                    let i = crate::state::first_card_index(hand, card);
                    assert(moved =~~= (StateV {
                        hands: old(state)@.hands.update(p, hand.update(i, hand.last()).drop_last()),
                        discard_piles: old(state)@.discard_piles.update(
                            p,
                            old(state)@.discard_piles[p].push(hand[i]),
                        ),
                        ..old(state)@
                    }));
                }
            }
        },
        _ => {
            proof {
                assert(state@ =~~= old(state)@);
            }
        },
    }
}

/// What awarding a win to `p` leaves as the outcome: a fresh win stands; a
/// win already held by the other player turns into a tie; a decided outcome
/// never reverts.
pub open spec fn spec_award(w: Option<crate::state::GameOutcome>, p: usize) -> Option<
    crate::state::GameOutcome,
> {
    match w {
        None => Some(crate::state::GameOutcome::Win(p)),
        Some(crate::state::GameOutcome::Win(q)) => if q == p {
            Some(crate::state::GameOutcome::Win(q))
        } else {
            Some(crate::state::GameOutcome::Tie)
        },
        Some(crate::state::GameOutcome::Tie) => Some(crate::state::GameOutcome::Tie),
    }
}

/// Records that `winner_player` has won, per `spec_award`.
pub(crate) fn award_win(state: &mut State, winner_player: usize)
    requires
        old(state)@.wf(),
    ensures
        final(state)@.wf(),
        final(state)@ =~~= (StateV { winner: final(state)@.winner, ..old(state)@ }),
        final(state)@.winner == spec_award(old(state)@.winner, winner_player),
        final(state)@.same_card_counts(old(state)@),
{
    let new_winner = match state.winner {
        None => Some(crate::state::GameOutcome::Win(winner_player)),
        Some(crate::state::GameOutcome::Win(q)) => {
            if q == winner_player {
                Some(crate::state::GameOutcome::Win(q))
            } else {
                Some(crate::state::GameOutcome::Tie)
            }
        },
        Some(crate::state::GameOutcome::Tie) => Some(crate::state::GameOutcome::Tie),
    };
    state.winner = new_winner;
}

/// The points a knockout awards: two for an Ex Pokemon, one otherwise.
pub open spec fn spec_ko_points(pc: crate::types::PlayedCard) -> int {
    if pc.card.spec_is_ex() {
        2
    } else {
        1
    }
}

/// Deals `amount` damage to the Pokemon in `defending_player`'s slot `idx`.
/// A Pokemon that survives keeps everything else; one that falls to zero is
/// knocked out: it and the cards under it go to its owner's discard pile,
/// the other player scores its points, and a fallen active either hands its
/// owner a replacement choice from the bench or, with an empty bench, the
/// game to the other player. Reaching three points also wins the game.
/// What dealing `amount` damage to `defending_player`'s slot `idx` leaves of
/// the state. A Pokemon that survives keeps everything else; one that falls
/// is knocked out: it and the cards under it go to its owner's discard pile,
/// the other player scores its points, a fallen active either hands its
/// owner a complete replacement choice from the bench or, with an empty
/// bench, the game to the other player, and three points win the game.
pub open spec fn spec_damaged(
    pre: StateV,
    post: StateV,
    defending_player: usize,
    idx: usize,
    amount: u32,
) -> bool {
    let d = defending_player as int;
    &&& post =~~= (StateV {
        points: post.points,
        winner: post.winner,
        in_play_pokemon: post.in_play_pokemon,
        discard_piles: post.discard_piles,
        move_generation_stack: post.move_generation_stack,
        ..pre
    })
    &&& match pre.slot(d, idx as int) {
        None => post =~~= pre,
        Some(pc) => if amount < pc.remaining_hp {
            post =~~= (StateV {
                in_play_pokemon: pre.in_play_pokemon.update(
                    d,
                    pre.in_play_pokemon[d].update(
                        idx as int,
                        Some(
                            crate::types::PlayedCard {
                                remaining_hp: (pc.remaining_hp - amount) as u32,
                                ..pc
                            },
                        ),
                    ),
                ),
                ..pre
            })
        } else {
            let opp = (1 - d) as usize;
            let np = vstd::math::min(pre.points[1 - d] + spec_ko_points(pc), 255);
            let bench_exists = exists|j: int| 1 <= j < 4 && pre.slot(d, j) is Some;
            let after_bench = if idx == 0 && !bench_exists {
                spec_award(pre.winner, opp)
            } else {
                pre.winner
            };
            &&& post.slot(d, idx as int) is None
            &&& forall|q: int, j: int|
                0 <= q < 2 && 0 <= j < 4 && !(q == d && j == idx as int) ==> post.slot(q, j)
                    == pre.slot(q, j)
            &&& post.discard_piles[d] == pre.discard_piles[d] + seq![pc.card] + pc.cards_behind@
            &&& post.points[1 - d] as int == np
            &&& post.points[d] == pre.points[d]
            &&& post.winner == if np >= 3 {
                spec_award(after_bench, opp)
            } else {
                after_bench
            }
            &&& if idx == 0 && bench_exists {
                let stack = post.move_generation_stack;
                let old_stack = pre.move_generation_stack;
                &&& stack.len() == old_stack.len() + 1
                &&& stack.take(old_stack.len() as int) == old_stack
                &&& crate::trainer_actions::spec_target_frame(
                    post,
                    stack.last(),
                    defending_player,
                    1,
                    crate::trainer_actions::TargetFilter::Any,
                    crate::trainer_actions::FrameKind::Activate,
                )
            } else {
                post.move_generation_stack == pre.move_generation_stack
            }
        },
    }
}

#[verifier::rlimit(100)]
pub(crate) fn damage_slot(state: &mut State, defending_player: usize, idx: usize, amount: u32)
    requires
        old(state)@.wf(),
        defending_player < 2,
        idx < 4,
    ensures
        final(state)@.wf(),
        final(state)@.same_card_counts(old(state)@),
        spec_damaged(old(state)@, final(state)@, defending_player, idx, amount),
{
    let ghost pre = state@;
    let slot = state.in_play_pokemon[defending_player][idx].take();
    match slot {
        None => {
            state.in_play_pokemon[defending_player][idx] = None;
            proof {
                assert(state@.in_play_pokemon =~~= pre.in_play_pokemon.update(
                    defending_player as int,
                    pre.in_play_pokemon[defending_player as int].update(idx as int, None),
                ));
                assert(state@.in_play_pokemon =~~= pre.in_play_pokemon);
                assert(state@ =~~= pre);
            }
        },
        Some(pc) => {
            if amount < pc.remaining_hp {
                let mut pc = pc;
                pc.remaining_hp = pc.remaining_hp - amount;
                state.in_play_pokemon[defending_player][idx] = Some(pc);
                proof {
                    assert(state@.in_play_pokemon =~~= pre.in_play_pokemon.update(
                        defending_player as int,
                        pre.in_play_pokemon[defending_player as int].update(
                            idx as int,
                            state@.slot(defending_player as int, idx as int),
                        ),
                    ));
                    assert(state@ =~~= (StateV {
                        in_play_pokemon: state@.in_play_pokemon,
                        ..pre
                    }));
                    crate::state::lemma_slots_cards_update(
                        pre.in_play_pokemon[defending_player as int],
                        idx as int,
                        state@.slot(defending_player as int, idx as int),
                    );
                }
            } else {
                // Knockout: score, bury the card and its history, and refill
                // or decide the game.
                let opponent = (defending_player + 1) % 2;
                let points: u32 = if pc.card.is_ex() {
                    2
                } else {
                    1
                };
                let ghost ko = pc;
                let mut pc = pc;
                let cur = state.points[opponent];
                let sum = cur as u32 + points;
                state.points[opponent] = if sum > 255 {
                    255
                } else {
                    sum as u8
                };
                state.discard_piles[defending_player].push(pc.card);
                state.discard_piles[defending_player].append(&mut pc.cards_behind);
                proof {
                    let d = defending_player as int;
                    assert(state@.points =~~= pre.points.update(
                        opponent as int,
                        state@.points[opponent as int],
                    ));
                    assert(state@.in_play_pokemon =~~= pre.in_play_pokemon.update(
                        d,
                        pre.in_play_pokemon[d].update(idx as int, None),
                    ));
                    assert(state@.discard_piles =~~= pre.discard_piles.update(
                        d,
                        pre.discard_piles[d] + seq![ko.card] + ko.cards_behind@,
                    ));
                    assert(state@ =~~= (StateV {
                        points: state@.points,
                        in_play_pokemon: state@.in_play_pokemon,
                        discard_piles: state@.discard_piles,
                        ..pre
                    }));
                    crate::state::lemma_slots_cards_update(
                        pre.in_play_pokemon[d],
                        idx as int,
                        None,
                    );
                }
                let ghost after_ko = state@;
                proof {
                    assert forall|q: int, j: int|
                        0 <= q < 2 && 0 <= j < 4 && !(q == defending_player as int && j == idx
                            as int) implies state@.slot(q, j) == pre.slot(q, j) by {}
                }
                let ghost mut pushed_state = state@;
                let ghost mut frame_pushed = false;
                if idx == 0 {
                    let bench = crate::trainer_actions::eligible_slots(
                        state,
                        defending_player,
                        1,
                        crate::trainer_actions::TargetFilter::Any,
                    );
                    proof {
                        if bench@.len() > 0 {
                            assert(crate::trainer_actions::spec_slot_eligible(
                                after_ko,
                                defending_player as int,
                                bench@[0] as int,
                                crate::trainer_actions::TargetFilter::Any,
                            ));
                            assert(pre.slot(defending_player as int, bench@[0] as int) is Some);
                        } else {
                            if exists|j: int|
                                1 <= j < 4 && pre.slot(defending_player as int, j) is Some {
                                let j = choose|j: int|
                                    1 <= j < 4 && pre.slot(defending_player as int, j) is Some;
                                assert(crate::trainer_actions::spec_slot_eligible(
                                    after_ko,
                                    defending_player as int,
                                    j,
                                    crate::trainer_actions::TargetFilter::Any,
                                ));
                                assert(false);
                            }
                        }
                    }
                    if bench.len() > 0 {
                        crate::trainer_actions::push_target_frame(
                            state,
                            defending_player,
                            1,
                            crate::trainer_actions::TargetFilter::Any,
                            crate::trainer_actions::FrameKind::Activate,
                            false,
                        );
                        proof {
                            assert forall|q: int, j: int|
                                0 <= q < 2 && 0 <= j < 4 implies state@.slot(q, j)
                                == after_ko.slot(q, j) by {}
                            let f = state@.move_generation_stack.last();
                            let d = defending_player as int;
                            assert(crate::trainer_actions::spec_target_frame(
                                after_ko,
                                f,
                                defending_player,
                                1,
                                crate::trainer_actions::TargetFilter::Any,
                                crate::trainer_actions::FrameKind::Activate,
                            ));
                            assert forall|i: int| 0 <= i < 4 implies
                                crate::trainer_actions::spec_slot_eligible(
                                    state@,
                                    d,
                                    i,
                                    crate::trainer_actions::TargetFilter::Any,
                                ) == crate::trainer_actions::spec_slot_eligible(
                                    after_ko,
                                    d,
                                    i,
                                    crate::trainer_actions::TargetFilter::Any,
                                ) by {}
                            assert forall|k: int|
                                0 <= k < f.1.len() implies crate::trainer_actions::spec_is_target_option(
                                state@,
                                defending_player,
                                crate::trainer_actions::TargetFilter::Any,
                                crate::trainer_actions::FrameKind::Activate,
                                #[trigger] f.1[k],
                            ) by {
                                assert(crate::trainer_actions::spec_is_target_option(
                                    after_ko,
                                    defending_player,
                                    crate::trainer_actions::TargetFilter::Any,
                                    crate::trainer_actions::FrameKind::Activate,
                                    f.1[k],
                                ));
                            }
                            assert forall|i: int|
                                1 <= i < 4 && crate::trainer_actions::spec_slot_eligible(
                                    state@,
                                    d,
                                    i,
                                    crate::trainer_actions::TargetFilter::Any,
                                ) implies exists|k: int|
                                0 <= k < f.1.len()
                                    && crate::trainer_actions::spec_option_slot(
                                    crate::trainer_actions::FrameKind::Activate,
                                    #[trigger] f.1[k],
                                ) == i by {
                                assert(crate::trainer_actions::spec_slot_eligible(
                                    after_ko,
                                    d,
                                    i,
                                    crate::trainer_actions::TargetFilter::Any,
                                ));
                                let k0 = choose|k: int|
                                    0 <= k < f.1.len()
                                        && crate::trainer_actions::spec_option_slot(
                                        crate::trainer_actions::FrameKind::Activate,
                                        #[trigger] f.1[k],
                                    ) == i;
                                assert(crate::trainer_actions::spec_option_slot(
                                    crate::trainer_actions::FrameKind::Activate,
                                    f.1[k0],
                                ) == i);
                            }
                            assert(crate::trainer_actions::spec_target_frame(
                                state@,
                                f,
                                defending_player,
                                1,
                                crate::trainer_actions::TargetFilter::Any,
                                crate::trainer_actions::FrameKind::Activate,
                            ));
                            pushed_state = state@;
                            frame_pushed = true;
                        }
                    } else {
                        award_win(state, opponent);
                    }
                }
                if state.points[opponent] >= 3 {
                    award_win(state, opponent);
                }
                proof {
                    if frame_pushed {
                        let d = defending_player as int;
                        assert(state@.move_generation_stack == pushed_state.move_generation_stack);
                        assert forall|q: int, j: int|
                            0 <= q < 2 && 0 <= j < 4 implies state@.slot(q, j)
                            == pushed_state.slot(q, j) by {}
                        let f = state@.move_generation_stack.last();
                        assert(crate::trainer_actions::spec_target_frame(
                            pushed_state,
                            f,
                            defending_player,
                            1,
                            crate::trainer_actions::TargetFilter::Any,
                            crate::trainer_actions::FrameKind::Activate,
                        ));
                        assert forall|k: int|
                            0 <= k < f.1.len() implies crate::trainer_actions::spec_is_target_option(
                            state@,
                            defending_player,
                            crate::trainer_actions::TargetFilter::Any,
                            crate::trainer_actions::FrameKind::Activate,
                            #[trigger] f.1[k],
                        ) by {
                            assert(crate::trainer_actions::spec_is_target_option(
                                pushed_state,
                                defending_player,
                                crate::trainer_actions::TargetFilter::Any,
                                crate::trainer_actions::FrameKind::Activate,
                                f.1[k],
                            ));
                        }
                        assert forall|i: int|
                            1 <= i < 4 && crate::trainer_actions::spec_slot_eligible(
                                state@,
                                d,
                                i,
                                crate::trainer_actions::TargetFilter::Any,
                            ) implies exists|k: int|
                            0 <= k < f.1.len() && crate::trainer_actions::spec_option_slot(
                                crate::trainer_actions::FrameKind::Activate,
                                #[trigger] f.1[k],
                            ) == i by {
                            assert(crate::trainer_actions::spec_slot_eligible(
                                pushed_state,
                                d,
                                i,
                                crate::trainer_actions::TargetFilter::Any,
                            ));
                            let k0 = choose|k: int|
                                0 <= k < f.1.len() && crate::trainer_actions::spec_option_slot(
                                    crate::trainer_actions::FrameKind::Activate,
                                    #[trigger] f.1[k],
                                ) == i;
                            assert(crate::trainer_actions::spec_option_slot(
                                crate::trainer_actions::FrameKind::Activate,
                                f.1[k0],
                            ) == i);
                        }
                        assert(crate::trainer_actions::spec_target_frame(
                            state@,
                            f,
                            defending_player,
                            1,
                            crate::trainer_actions::TargetFilter::Any,
                            crate::trainer_actions::FrameKind::Activate,
                        ));
                    }
                }
                proof {
                    let d = defending_player as int;
                    assert(state@.slot(d, idx as int) is None);
                    assert(state@.discard_piles[d] == pre.discard_piles[d] + seq![ko.card]
                        + ko.cards_behind@);
                    assert(state@.points[1 - d] as int == vstd::math::min(
                        pre.points[1 - d] + spec_ko_points(ko),
                        255,
                    ));
                    assert(state@.points[d] == pre.points[d]);
                    assert(state@ =~~= (StateV {
                        points: state@.points,
                        winner: state@.winner,
                        in_play_pokemon: state@.in_play_pokemon,
                        discard_piles: state@.discard_piles,
                        move_generation_stack: state@.move_generation_stack,
                        ..pre
                    }));
                }
            }
        },
    }
}

/// What healing `amount` at `position` on `p`'s side leaves of the state:
/// the target's hit points rise by the amount, capped at the printed total;
/// a missing target changes nothing.
pub open spec fn spec_healed(
    pre: StateV,
    post: StateV,
    p: int,
    position: usize,
    amount: u32,
) -> bool {
    if position < 4 {
        match pre.slot(p, position as int) {
            Some(pc) => post =~~= (StateV {
                in_play_pokemon: pre.in_play_pokemon.update(
                    p,
                    pre.in_play_pokemon[p].update(
                        position as int,
                        Some(
                            crate::types::PlayedCard {
                                remaining_hp: if pc.remaining_hp + amount >= pc.total_hp {
                                    pc.total_hp
                                } else {
                                    (pc.remaining_hp + amount) as u32
                                },
                                ..pc
                            },
                        ),
                    ),
                ),
                ..pre
            }),
            None => post =~~= pre,
        }
    } else {
        post =~~= pre
    }
}

/// Heals the Pokemon in the actor's slot, never beyond its printed total;
/// an empty slot is left alone.
pub fn apply_healing(acting_player: usize, state: &mut State, position: usize, amount: u32)
    requires
        old(state)@.wf(),
        acting_player < 2,
    ensures
        final(state)@.wf(),
        final(state)@.same_card_counts(old(state)@),
        spec_healed(old(state)@, final(state)@, acting_player as int, position, amount),
{
    if position >= 4 {
        return ;
    }
    proof {
        assert(state@.in_play_pokemon.len() == 2);
        assert(state@.in_play_pokemon[acting_player as int].len() == 4);
    }
    let ghost pre = state@;
    let slot = state.in_play_pokemon[acting_player][position].take();
    match slot {
        Some(pc) => {
            let mut pc = pc;
            pc.heal(amount);
            state.in_play_pokemon[acting_player][position] = Some(pc);
            proof {
                let p = acting_player as int;
                assert(state@.in_play_pokemon =~~= pre.in_play_pokemon.update(
                    p,
                    pre.in_play_pokemon[p].update(position as int, state@.slot(p, position as int)),
                ));
                assert(state@ =~~= (StateV { in_play_pokemon: state@.in_play_pokemon, ..pre }));
                crate::state::lemma_slots_cards_update(
                    pre.in_play_pokemon[p],
                    position as int,
                    state@.slot(p, position as int),
                );
            }
        },
        None => {
            state.in_play_pokemon[acting_player][position] = None;
            proof {
                assert(state@.in_play_pokemon =~~= pre.in_play_pokemon.update(
                    acting_player as int,
                    pre.in_play_pokemon[acting_player as int].update(position as int, None),
                ));
                assert(state@.in_play_pokemon =~~= pre.in_play_pokemon);
                assert(state@ =~~= pre);
            }
        },
    }
}

} // verus!

verus! {

/// What clearing a Pokemon's status conditions leaves of a slot.
pub open spec fn spec_cleanse_slot(slot: Option<crate::types::PlayedCard>) -> Option<
    crate::types::PlayedCard,
> {
    match slot {
        Some(pc) => Some(
            crate::types::PlayedCard { poisoned: false, paralyzed: false, asleep: false, ..pc },
        ),
        None => None,
    }
}

/// Attaches the listed energy: for each entry, `amount` energy of one type
/// to one of the actor's occupied slots; entries aimed at empty or
/// out-of-range slots do nothing. With `is_turn_energy`, the turn's energy
/// is consumed.
pub(crate) fn apply_attach(
    acting_player: usize,
    state: &mut State,
    attachments: &Vec<(u32, crate::types::EnergyType, usize)>,
    is_turn_energy: bool,
)
    requires
        old(state)@.wf(),
        acting_player < 2,
    ensures
        final(state)@.wf(),
        final(state)@.same_card_counts(old(state)@),
        final(state)@ =~~= (StateV {
            in_play_pokemon: final(state)@.in_play_pokemon,
            current_energy: if is_turn_energy {
                None
            } else {
                old(state)@.current_energy
            },
            ..old(state)@
        }),
        forall|p: int, i: int|
            0 <= p < 2 && 0 <= i < 4 ==> match (
                old(state)@.slot(p, i),
                #[trigger] final(state)@.slot(p, i),
            ) {
                (Some(a), Some(b)) => b == (crate::types::PlayedCard {
                    attached_energy: b.attached_energy,
                    ..a
                }) && b.attached_energy@.len() >= a.attached_energy@.len(),
                (None, None) => true,
                _ => false,
            },
{
    let mut k: usize = 0;
    while k < attachments.len()
        invariant
            acting_player < 2,
            k <= attachments@.len(),
            state@.wf(),
            state@.same_card_counts(old(state)@),
            state@ =~~= (StateV {
                in_play_pokemon: state@.in_play_pokemon,
                ..old(state)@
            }),
            forall|p: int, i: int|
                0 <= p < 2 && 0 <= i < 4 ==> match (
                    old(state)@.slot(p, i),
                    #[trigger] state@.slot(p, i),
                ) {
                    (Some(a), Some(b)) => b == (crate::types::PlayedCard {
                        attached_energy: b.attached_energy,
                        ..a
                    }) && b.attached_energy@.len() >= a.attached_energy@.len(),
                    (None, None) => true,
                    _ => false,
                },
        decreases attachments@.len() - k,
    {
        let (amount, energy, in_play_idx) = attachments[k];
        if in_play_idx < 4 {
            let ghost pre = state@;
            proof {
                assert(state@.in_play_pokemon.len() == 2);
                assert(state@.in_play_pokemon[acting_player as int].len() == 4);
            }
            let slot = state.in_play_pokemon[acting_player][in_play_idx].take();
            match slot {
                Some(pc) => {
                    let mut pc = pc;
                    pc.attach_energy(&energy, amount);
                    state.in_play_pokemon[acting_player][in_play_idx] = Some(pc);
                    proof {
                        let p = acting_player as int;
                        assert(state@.in_play_pokemon =~~= pre.in_play_pokemon.update(
                            p,
                            pre.in_play_pokemon[p].update(
                                in_play_idx as int,
                                state@.slot(p, in_play_idx as int),
                            ),
                        ));
                        assert(state@ =~~= (StateV {
                            in_play_pokemon: state@.in_play_pokemon,
                            ..pre
                        }));
                        crate::state::lemma_slots_cards_update(
                            pre.in_play_pokemon[p],
                            in_play_idx as int,
                            state@.slot(p, in_play_idx as int),
                        );
                        assert forall|q: int, i: int| 0 <= q < 2 && 0 <= i < 4 implies match (
                            old(state)@.slot(q, i),
                            #[trigger] state@.slot(q, i),
                        ) {
                            (Some(a), Some(b)) => b == (crate::types::PlayedCard {
                                attached_energy: b.attached_energy,
                                ..a
                            }) && b.attached_energy@.len() >= a.attached_energy@.len(),
                            (None, None) => true,
                            _ => false,
                        } by {
                            if q == p && i == in_play_idx as int {
                            } else {
                                assert(state@.slot(q, i) == pre.slot(q, i));
                            }
                        }
                    }
                },
                None => {
                    state.in_play_pokemon[acting_player][in_play_idx] = None;
                    proof {
                        assert(state@.in_play_pokemon =~~= pre.in_play_pokemon.update(
                            acting_player as int,
                            pre.in_play_pokemon[acting_player as int].update(
                                in_play_idx as int,
                                None,
                            ),
                        ));
                        assert(state@.in_play_pokemon =~~= pre.in_play_pokemon);
                        assert(state@ =~~= pre);
                    }
                },
            }
        }
        k += 1;
    }
    let ghost done = state@;
    if is_turn_energy {
        state.current_energy = None;
    }
    proof {
        assert forall|p: int, i: int| 0 <= p < 2 && 0 <= i < 4 implies match (
            old(state)@.slot(p, i),
            #[trigger] state@.slot(p, i),
        ) {
            (Some(a), Some(b)) => b == (crate::types::PlayedCard {
                attached_energy: b.attached_energy,
                ..a
            }) && b.attached_energy@.len() >= a.attached_energy@.len(),
            (None, None) => true,
            _ => false,
        } by {
            assert(state@.slot(p, i) == done.slot(p, i));
        }
    }
}

/// What placing a Basic from the hand into an empty slot leaves of the
/// state; anything else (a non-Basic, an occupied or out-of-range slot, a
/// card not in hand) changes nothing.
pub open spec fn spec_placed(
    pre: StateV,
    post: StateV,
    p: int,
    card: crate::types::Card,
    index: usize,
) -> bool {
    let legal = {
        &&& card matches crate::types::Card::Pokemon(pk) && pk.stage == 0 && pk.hp > 0
        &&& index < 4
        &&& pre.slot(p, index as int) is None
        &&& crate::state::first_card_index(pre.hands[p], card) >= 0
    };
    if legal {
        &&& post =~~= (StateV {
            hands: post.hands,
            in_play_pokemon: post.in_play_pokemon,
            ..pre
        })
        &&& post.hands == pre.hands.update(
            p,
            pre.hands[p].update(
                crate::state::first_card_index(pre.hands[p], card),
                pre.hands[p].last(),
            ).drop_last(),
        )
        &&& post.slot(p, index as int) matches Some(pc) && pc.card@ == card@
            && pc.remaining_hp == pc.total_hp && pc.played_this_turn
            && pc.attached_energy@.len() == 0 && pc.cards_behind@.len() == 0
    } else {
        post =~~= pre
    }
}

/// Places a Basic Pokemon from the actor's hand into an empty slot; anything
/// else leaves the state untouched.
pub(crate) fn apply_place(
    acting_player: usize,
    state: &mut State,
    card: &crate::types::Card,
    index: usize,
)
    requires
        old(state)@.wf(),
        acting_player < 2,
    ensures
        final(state)@.wf(),
        final(state)@.same_card_counts(old(state)@),
        spec_placed(old(state)@, final(state)@, acting_player as int, *card, index),
{
    let placeable = match card {
        crate::types::Card::Pokemon(pk) => pk.stage == 0 && pk.hp > 0,
        crate::types::Card::Trainer(_) => false,
    };
    if !placeable || index >= 4 {
        return ;
    }
    if state.in_play_pokemon[acting_player][index].is_some() {
        proof {
            assert(old(state)@.slot(acting_player as int, index as int) is Some);
        }
        return ;
    }
    if !crate::state::first_card_index_exec(&state.hands[acting_player], card) {
        return ;
    }
    let played_card = crate::hooks::to_playable_card(card, true);
    let ghost pre = state@;
    state.in_play_pokemon[acting_player][index] = Some(played_card);
    proof {
        let p = acting_player as int;
        assert(state@.in_play_pokemon =~~= pre.in_play_pokemon.update(
            p,
            pre.in_play_pokemon[p].update(index as int, state@.slot(p, index as int)),
        ));
        assert(state@ =~~= (StateV { in_play_pokemon: state@.in_play_pokemon, ..pre }));
        crate::state::lemma_slots_cards_update(
            pre.in_play_pokemon[p],
            index as int,
            state@.slot(p, index as int),
        );
    }
    state.remove_card_from_hand(acting_player, card);
}

/// Attaches a tool to the Pokemon in the actor's slot and lets the tool's
/// own attachment effect run; an empty or out-of-range slot is left alone.
pub(crate) fn apply_attach_tool(
    acting_player: usize,
    state: &mut State,
    in_play_idx: usize,
    tool_id: crate::tool_ids::ToolId,
)
    requires
        old(state)@.wf(),
        acting_player < 2,
    ensures
        final(state)@.wf(),
        final(state)@.same_card_counts(old(state)@),
        final(state)@ =~~= (StateV {
            in_play_pokemon: final(state)@.in_play_pokemon,
            ..old(state)@
        }),
        (in_play_idx < 4 && old(state)@.slot(acting_player as int, in_play_idx as int) is Some)
            ==> (final(state)@.slot(acting_player as int, in_play_idx as int) matches Some(npc)
            && npc.attached_tool == Some(tool_id)),
{
    if in_play_idx >= 4 {
        return ;
    }
    let ghost pre = state@;
    let slot = state.in_play_pokemon[acting_player][in_play_idx].take();
    match slot {
        Some(pc) => {
            let mut pc = pc;
            pc.attached_tool = Some(tool_id);
            state.in_play_pokemon[acting_player][in_play_idx] = Some(pc);
            proof {
                let p = acting_player as int;
                assert(state@.in_play_pokemon =~~= pre.in_play_pokemon.update(
                    p,
                    pre.in_play_pokemon[p].update(
                        in_play_idx as int,
                        state@.slot(p, in_play_idx as int),
                    ),
                ));
                assert(state@ =~~= (StateV { in_play_pokemon: state@.in_play_pokemon, ..pre }));
                crate::state::lemma_slots_cards_update(
                    pre.in_play_pokemon[p],
                    in_play_idx as int,
                    state@.slot(p, in_play_idx as int),
                );
            }
            crate::hooks::on_attach_tool(state, acting_player, in_play_idx, tool_id);
        },
        None => {
            state.in_play_pokemon[acting_player][in_play_idx] = None;
            proof {
                assert(state@.in_play_pokemon =~~= pre.in_play_pokemon.update(
                    acting_player as int,
                    pre.in_play_pokemon[acting_player as int].update(in_play_idx as int, None),
                ));
                assert(state@.in_play_pokemon =~~= pre.in_play_pokemon);
                assert(state@ =~~= pre);
            }
        },
    }
}

/// Evolves the Pokemon in the actor's slot with a card from their hand. The
/// evolution keeps the attached energy and the damage already taken, clears
/// status conditions and the per-turn ability use, records the evolved-over
/// card under the new one, and counts as played this turn. An illegal
/// request (a Basic or trainer card, an absent target, an evolution whose
/// hit points would not survive the inherited damage, a card not in hand)
/// leaves the state untouched.
/// Whether evolving with `card` at `position` is legal for the committed
/// action: a stage-one-or-higher Pokemon card in hand, an occupied slot, and
/// printed hit points exceeding the damage already taken.
pub open spec fn spec_evolve_legal(pre: StateV, p: int, card: crate::types::Card, position: usize) -> bool {
    &&& card matches crate::types::Card::Pokemon(pk) && pk.stage > 0
    &&& position < 4
    &&& pre.slot(p, position as int) matches Some(oldpc) && card->Pokemon_0.hp > oldpc.total_hp
        - oldpc.remaining_hp
    &&& crate::state::first_card_index(pre.hands[p], card) >= 0
}

/// What evolving leaves of the state: on a legal input the slot holds the new
/// card at its printed total less the damage carried over, energy kept, the
/// old card buried beneath it, statuses cleared, and the first equal card
/// leaves the hand by swap-removal; anything illegal changes nothing.
pub open spec fn spec_evolved(
    pre: StateV,
    post: StateV,
    p: int,
    card: crate::types::Card,
    position: usize,
) -> bool {
    if spec_evolve_legal(pre, p, card, position) {
        let oldpc = pre.slot(p, position as int)->0;
        let hand = pre.hands[p];
        let i = crate::state::first_card_index(hand, card);
        &&& post =~~= (StateV {
            hands: post.hands,
            in_play_pokemon: post.in_play_pokemon,
            ..pre
        })
        &&& post.hands == pre.hands.update(p, hand.update(i, hand.last()).drop_last())
        &&& post.in_play_pokemon == pre.in_play_pokemon.update(
            p,
            pre.in_play_pokemon[p].update(position as int, post.slot(p, position as int)),
        )
        &&& post.slot(p, position as int) matches Some(npc) && npc.card@ == card@
            && npc.total_hp == card->Pokemon_0.hp && npc.remaining_hp as int == card->Pokemon_0.hp
            - (oldpc.total_hp - oldpc.remaining_hp) && npc.attached_energy == oldpc.attached_energy
            && npc.cards_behind@ == oldpc.cards_behind@.push(oldpc.card) && npc.played_this_turn
            && !npc.ability_used && !npc.poisoned && !npc.paralyzed && !npc.asleep
            && npc.attached_tool is None
    } else {
        post =~~= pre
    }
}

/// Commits an evolution. Where the original engine would abort on a Basic or
/// a trainer card, this committed form deliberately leaves the state
/// unchanged instead: the move generator never offers such an evolution, the
/// checked form reports it as an invalid evolution, and the library's
/// verified functions never abort.
pub fn apply_evolve(
    acting_player: usize,
    state: &mut State,
    card: &crate::types::Card,
    position: usize,
)
    requires
        old(state)@.wf(),
        acting_player < 2,
    ensures
        final(state)@.wf(),
        final(state)@.same_card_counts(old(state)@),
        spec_evolved(old(state)@, final(state)@, acting_player as int, *card, position),
{
    proof {
        assert(state@.in_play_pokemon.len() == 2);
        assert(state@.in_play_pokemon[acting_player as int].len() == 4);
    }
    let new_hp = match card {
        crate::types::Card::Pokemon(pk) => {
            if pk.stage == 0 {
                return ;
            }
            pk.hp
        },
        crate::types::Card::Trainer(_) => {
            return ;
        },
    };
    if position >= 4 {
        return ;
    }
    let ghost pre = state@;
    let slot = state.in_play_pokemon[acting_player][position].take();
    match slot {
        Some(old_pc) => {
            proof {
                assert(pre.slot(acting_player as int, position as int) == Some(old_pc));
            }
            let damage_taken = old_pc.total_hp - old_pc.remaining_hp;
            if new_hp <= damage_taken {
                state.in_play_pokemon[acting_player][position] = Some(old_pc);
                proof {
                    lemma_slot_restore(pre, state@, acting_player as int, position as int);
                }
                return ;
            }
            if !crate::state::first_card_index_exec(&state.hands[acting_player], card) {
                state.in_play_pokemon[acting_player][position] = Some(old_pc);
                proof {
                    lemma_slot_restore(pre, state@, acting_player as int, position as int);
                }
                return ;
            }
            let mut cards_behind = old_pc.cards_behind;
            cards_behind.push(old_pc.card);
            let new_pc = crate::types::PlayedCard {
                card: card.clone(),
                remaining_hp: new_hp - damage_taken,
                total_hp: new_hp,
                attached_energy: old_pc.attached_energy,
                attached_tool: None,
                played_this_turn: true,
                ability_used: false,
                poisoned: false,
                paralyzed: false,
                asleep: false,
                cards_behind,
            };
            state.in_play_pokemon[acting_player][position] = Some(new_pc);
            proof {
                let p = acting_player as int;
                assert(state@.in_play_pokemon =~~= pre.in_play_pokemon.update(
                    p,
                    pre.in_play_pokemon[p].update(position as int, state@.slot(p, position as int)),
                ));
                assert(state@ =~~= (StateV { in_play_pokemon: state@.in_play_pokemon, ..pre }));
                crate::state::lemma_slots_cards_update(
                    pre.in_play_pokemon[p],
                    position as int,
                    state@.slot(p, position as int),
                );
            }
            state.remove_card_from_hand(acting_player, card);
        },
        None => {
            state.in_play_pokemon[acting_player][position] = None;
            proof {
                lemma_slot_restore(pre, state@, acting_player as int, position as int);
            }
        },
    }
}

/// Writing a slot's own value back leaves the snapshot unchanged.
proof fn lemma_slot_restore(pre: StateV, post: StateV, p: int, i: int)
    requires
        pre.wf(),
        0 <= p < 2,
        0 <= i < 4,
        post =~~= (StateV {
            in_play_pokemon: pre.in_play_pokemon.update(
                p,
                pre.in_play_pokemon[p].update(i, pre.slot(p, i)),
            ),
            ..pre
        }),
    ensures
        post =~~= pre,
{
    assert(pre.in_play_pokemon[p].update(i, pre.slot(p, i)) =~= pre.in_play_pokemon[p]);
    assert(pre.in_play_pokemon.update(p, pre.in_play_pokemon[p]) =~= pre.in_play_pokemon);
}

} // verus!

verus! {

/// A forecast with a single, certain resolution of the action's own kind.
fn deterministic_outcome() -> (r: (Probabilities, Vec<Outcome>))
    ensures
        spec_valid_forecast(r.0@, r.1@),
        r.0@.len() == 1,
        r.1@ =~= seq![Outcome::Deterministic],
{
    let mut probs: Probabilities = Vec::new();
    probs.push(64);
    let mut outcomes: Vec<Outcome> = Vec::new();
    outcomes.push(Outcome::Deterministic);
    proof {
        lemma_sum_first(probs@);
        lemma_sum_empty(probs@.drop_first());
    }
    (probs, outcomes)
}

/// Retreats or force-activates: the Pokemon in the bench slot moves to the
/// active spot. A paid retreat first pays the active's current retreat cost
/// by discarding that many attached energy, newest first, and fails
/// untouched when the energy does not suffice. The Pokemon leaving the
/// active spot is cured of all status conditions. Both forms mark the
/// turn's retreat as used, and a force-activation into an empty active spot
/// simply fills it.
/// The active's retreat cost in the given state: the printed cost less any
/// discount in effect this turn, never below zero.
pub open spec fn spec_retreat_cost_len(s: StateV, apc: crate::types::PlayedCard) -> int {
    let base = apc.card->Pokemon_0.retreat_cost@;
    let discount = crate::hooks::spec_retreat_discount(
        crate::state::spec_effect_views_at(s, s.turn_count),
    );
    if discount >= base.len() {
        0
    } else {
        base.len() - discount
    }
}

/// What a retreat or forced activation leaves of the state: the benched
/// Pokemon moves to the active spot; the one leaving it is cured of status
/// conditions and, on a paid retreat, pays the current cost in attached
/// energy, newest first; an unpayable or aimless move changes nothing.
pub open spec fn spec_retreated(
    pre: StateV,
    post: StateV,
    p: int,
    bench_idx: usize,
    is_free: bool,
) -> bool {
    let bench = pre.slot(p, bench_idx as int);
    let active = pre.slot(p, 0);
    &&& post =~~= (StateV {
        in_play_pokemon: post.in_play_pokemon,
        has_retreated: post.has_retreated,
        ..pre
    })
    &&& if 1 <= bench_idx < 4 && bench is Some {
        if is_free {
            &&& post.slot(p, 0) == bench
            &&& post.slot(p, bench_idx as int) == spec_cleanse_slot(active)
            &&& post.has_retreated
        } else {
            match active {
                Some(apc) => {
                    let cost = spec_retreat_cost_len(pre, apc);
                    if apc.attached_energy@.len() >= cost {
                        &&& post.slot(p, 0) == bench
                        &&& post.slot(p, bench_idx as int) == Some(
                            crate::types::PlayedCard {
                                attached_energy: post.slot(p, bench_idx as int)->0.attached_energy,
                                poisoned: false,
                                paralyzed: false,
                                asleep: false,
                                ..apc
                            },
                        )
                        &&& post.slot(p, bench_idx as int)->0.attached_energy@
                            == apc.attached_energy@.take(apc.attached_energy@.len() - cost)
                        &&& post.has_retreated
                    } else {
                        post =~~= pre
                    }
                },
                None => if is_free {
                    true
                } else {
                    post =~~= pre
                },
            }
        }
    } else {
        post =~~= pre
    }
}

pub fn apply_retreat(
    acting_player: usize,
    state: &mut State,
    bench_idx: usize,
    is_free: bool,
)
    requires
        old(state)@.wf(),
        acting_player < 2,
    ensures
        final(state)@.wf(),
        final(state)@.same_card_counts(old(state)@),
        spec_retreated(old(state)@, final(state)@, acting_player as int, bench_idx, is_free),
{
    if bench_idx == 0 || bench_idx >= 4 {
        return ;
    }
    if state.in_play_pokemon[acting_player][bench_idx].is_none() {
        proof {
            assert(old(state)@.slot(acting_player as int, bench_idx as int) is None);
        }
        return ;
    }
    let ghost pre = state@;
    let active = state.in_play_pokemon[acting_player][0].take();
    match active {
        None => {
            if is_free {
                let bench = state.in_play_pokemon[acting_player][bench_idx].take();
                state.in_play_pokemon[acting_player][0] = bench;
                state.in_play_pokemon[acting_player][bench_idx] = None;
                state.has_retreated = true;
                proof {
                    let p = acting_player as int;
                    assert(state@.in_play_pokemon =~~= pre.in_play_pokemon.update(
                        p,
                        pre.in_play_pokemon[p].update(0, pre.slot(p, bench_idx as int)).update(
                            bench_idx as int,
                            None,
                        ),
                    ));
                    assert(state@ =~~= (StateV {
                        in_play_pokemon: state@.in_play_pokemon,
                        has_retreated: true,
                        ..pre
                    }));
                    crate::state::lemma_slots_cards_update(
                        pre.in_play_pokemon[p],
                        0,
                        pre.slot(p, bench_idx as int),
                    );
                    crate::state::lemma_slots_cards_update(
                        pre.in_play_pokemon[p].update(0, pre.slot(p, bench_idx as int)),
                        bench_idx as int,
                        None,
                    );
                }
            } else {
                state.in_play_pokemon[acting_player][0] = None;
                proof {
                    lemma_slot_restore(pre, state@, acting_player as int, 0);
                }
            }
        },
        Some(apc) => {
            let mut apc = apc;
            if !is_free {
                proof {
                    let p = acting_player as int;
                    assert(state@.in_play_pokemon =~~= pre.in_play_pokemon.update(
                        p,
                        pre.in_play_pokemon[p].update(0, None),
                    ));
                    assert(state@ =~~= (StateV {
                        in_play_pokemon: state@.in_play_pokemon,
                        ..pre
                    }));
                    assert(state@.wf());
                    assert(apc == pre.slot(p, 0)->0);
                    assert(apc.card is Pokemon);
                    assert(crate::state::spec_effect_views_at(state@, state@.turn_count)
                        == crate::state::spec_effect_views_at(old(state)@, old(state)@.turn_count));
                }
                let cost = crate::hooks::get_retreat_cost(state, &apc);
                proof {
                    let base = apc.card->Pokemon_0.retreat_cost@;
                    crate::hooks::lemma_retreat_discount_nonneg(
                        crate::state::spec_effect_views_at(old(state)@, old(state)@.turn_count),
                    );
                    let discount = crate::hooks::spec_retreat_discount(
                        crate::state::spec_effect_views_at(old(state)@, old(state)@.turn_count),
                    );
                    assert(cost@.len() == if discount >= base.len() {
                        0int
                    } else {
                        base.len() - discount
                    });
                }
                if apc.attached_energy.len() < cost.len() {
                    state.in_play_pokemon[acting_player][0] = Some(apc);
                    proof {
                        let p = acting_player as int;
                        assert(state@.in_play_pokemon =~~= pre.in_play_pokemon.update(
                            p,
                            pre.in_play_pokemon[p].update(0, pre.slot(p, 0)),
                        ));
                        assert(state@ =~~= (StateV {
                            in_play_pokemon: state@.in_play_pokemon,
                            ..pre
                        }));
                        lemma_slot_restore(pre, state@, p, 0);
                    }
                    return ;
                }
                let keep = apc.attached_energy.len() - cost.len();
                apc.attached_energy.truncate(keep);
            }
            apc.poisoned = false;
            apc.paralyzed = false;
            apc.asleep = false;
            let bench = state.in_play_pokemon[acting_player][bench_idx].take();
            state.in_play_pokemon[acting_player][0] = bench;
            state.in_play_pokemon[acting_player][bench_idx] = Some(apc);
            state.has_retreated = true;
            proof {
                let p = acting_player as int;
                assert(state@.in_play_pokemon =~~= pre.in_play_pokemon.update(
                    p,
                    pre.in_play_pokemon[p].update(0, pre.slot(p, bench_idx as int)).update(
                        bench_idx as int,
                        state@.slot(p, bench_idx as int),
                    ),
                ));
                assert(state@ =~~= (StateV {
                    in_play_pokemon: state@.in_play_pokemon,
                    has_retreated: true,
                    ..pre
                }));
                crate::state::lemma_slots_cards_update(
                    pre.in_play_pokemon[p],
                    0,
                    pre.slot(p, bench_idx as int),
                );
                crate::state::lemma_slots_cards_update(
                    pre.in_play_pokemon[p].update(0, pre.slot(p, bench_idx as int)),
                    bench_idx as int,
                    state@.slot(p, bench_idx as int),
                );
            }
        },
    }
}

/// Uses the ability of the Pokemon in the actor's slot: the ability is
/// marked used for the turn and its effect runs. Butterfree's Powder Heal
/// restores twenty on each of the actor's Pokemon; Weezing's Gas Leak
/// poisons the opposing active; Gardevoir's Psy Shadow attaches a Psychic
/// energy to the actor's active. A slot without an implemented, activatable
/// ability is left untouched.
/// What using the ability at `position` leaves of the state: a fielded
/// Pokemon with a usable ability is marked spent; anything else changes
/// nothing. Only the board changes.
pub open spec fn spec_ability_used(pre: StateV, post: StateV, p: int, position: usize) -> bool {
    let dispatched = {
        &&& position < 4
        &&& pre.slot(p, position as int) matches Some(pc)
        &&& match pre.slot(p, position as int)->0.card {
            crate::types::Card::Pokemon(pk) => pk.ability matches Some(ab)
                && crate::ability_ids::spec_ability_of_title(ab.title@) matches Some(id)
                && id != crate::ability_ids::AbilityId::FabledLuster,
            crate::types::Card::Trainer(_) => false,
        }
    };
    &&& post =~~= (StateV { in_play_pokemon: post.in_play_pokemon, ..pre })
    &&& if dispatched {
        post.slot(p, position as int) matches Some(npc) && npc.ability_used
    } else {
        post =~~= pre
    }
}

#[verifier::rlimit(100)]
pub fn apply_abilities_action(acting_player: usize, state: &mut State, position: usize)
    requires
        old(state)@.wf(),
        acting_player < 2,
    ensures
        final(state)@.wf(),
        final(state)@.same_card_counts(old(state)@),
        spec_ability_used(old(state)@, final(state)@, acting_player as int, position),
{
    if position >= 4 {
        return ;
    }
    proof {
        assert(state@.in_play_pokemon.len() == 2);
        assert(state@.in_play_pokemon[acting_player as int].len() == 4);
        assert(state@.in_play_pokemon[(1 - acting_player) as int].len() == 4);
    }
    let ghost pre = state@;
    let slot = state.in_play_pokemon[acting_player][position].take();
    match slot {
        None => {
            state.in_play_pokemon[acting_player][position] = None;
            proof {
                lemma_slot_restore(pre, state@, acting_player as int, position as int);
            }
        },
        Some(pc) => {
            let ability = crate::ability_ids::AbilityId::from_card(&pc.card);
            match ability {
                Some(crate::ability_ids::AbilityId::PowderHeal) => {
                    let mut pc = pc;
                    pc.ability_used = true;
                    state.in_play_pokemon[acting_player][position] = Some(pc);
                    proof {
                        let p = acting_player as int;
                        assert(state@.in_play_pokemon =~~= pre.in_play_pokemon.update(
                            p,
                            pre.in_play_pokemon[p].update(
                                position as int,
                                state@.slot(p, position as int),
                            ),
                        ));
                        assert(state@ =~~= (StateV {
                            in_play_pokemon: state@.in_play_pokemon,
                            ..pre
                        }));
                        lemma_slot_set(pre, state@, p, position as int);
                        assert(state@.in_play_pokemon.len() == 2);
                        assert(state@.in_play_pokemon[0].len() == 4);
                        assert(state@.in_play_pokemon[1].len() == 4);
                    }
                    apply_healing(acting_player, state, 0, 20);
                    apply_healing(acting_player, state, 1, 20);
                    apply_healing(acting_player, state, 2, 20);
                    apply_healing(acting_player, state, 3, 20);
                    proof {
                        assert(state@.slot(acting_player as int, position as int) is Some);
                    }
                },
                Some(crate::ability_ids::AbilityId::GasLeak) => {
                    let mut pc = pc;
                    pc.ability_used = true;
                    state.in_play_pokemon[acting_player][position] = Some(pc);
                    proof {
                        let p = acting_player as int;
                        assert(state@.in_play_pokemon =~~= pre.in_play_pokemon.update(
                            p,
                            pre.in_play_pokemon[p].update(
                                position as int,
                                state@.slot(p, position as int),
                            ),
                        ));
                        assert(state@ =~~= (StateV {
                            in_play_pokemon: state@.in_play_pokemon,
                            ..pre
                        }));
                        lemma_slot_set(pre, state@, p, position as int);
                        assert(state@.in_play_pokemon.len() == 2);
                        assert(state@.in_play_pokemon[0].len() == 4);
                        assert(state@.in_play_pokemon[1].len() == 4);
                    }
                    let opponent = (acting_player + 1) % 2;
                    let ghost mid = state@;
                    let target = state.in_play_pokemon[opponent][0].take();
                    match target {
                        Some(tpc) => {
                            let mut tpc = tpc;
                            tpc.poisoned = true;
                            state.in_play_pokemon[opponent][0] = Some(tpc);
                            proof {
                                let q = opponent as int;
                                assert(state@.in_play_pokemon =~~= mid.in_play_pokemon.update(
                                    q,
                                    mid.in_play_pokemon[q].update(0, state@.slot(q, 0)),
                                ));
                                assert(state@ =~~= (StateV {
                                    in_play_pokemon: state@.in_play_pokemon,
                                    ..mid
                                }));
                                lemma_slot_set(mid, state@, q, 0);
                            }
                        },
                        None => {
                            state.in_play_pokemon[opponent][0] = None;
                            proof {
                                lemma_slot_restore(mid, state@, opponent as int, 0);
                            }
                        },
                    }
                },
                Some(crate::ability_ids::AbilityId::PsyShadow) => {
                    let mut pc = pc;
                    pc.ability_used = true;
                    state.in_play_pokemon[acting_player][position] = Some(pc);
                    proof {
                        let p = acting_player as int;
                        assert(state@.in_play_pokemon =~~= pre.in_play_pokemon.update(
                            p,
                            pre.in_play_pokemon[p].update(
                                position as int,
                                state@.slot(p, position as int),
                            ),
                        ));
                        assert(state@ =~~= (StateV {
                            in_play_pokemon: state@.in_play_pokemon,
                            ..pre
                        }));
                        lemma_slot_set(pre, state@, p, position as int);
                        assert(state@.in_play_pokemon.len() == 2);
                        assert(state@.in_play_pokemon[0].len() == 4);
                        assert(state@.in_play_pokemon[1].len() == 4);
                    }
                    let mut attachments: Vec<(u32, crate::types::EnergyType, usize)> = Vec::new();
                    attachments.push((1, crate::types::EnergyType::Psychic, 0));
                    apply_attach(acting_player, state, &attachments, false);
                    proof {
                        assert(state@.slot(acting_player as int, position as int) is Some);
                    }
                },
                Some(crate::ability_ids::AbilityId::FabledLuster) => {
                    state.in_play_pokemon[acting_player][position] = Some(pc);
                    proof {
                        lemma_slot_restore(pre, state@, acting_player as int, position as int);
                    }
                },
                None => {
                    state.in_play_pokemon[acting_player][position] = None;
                    state.in_play_pokemon[acting_player][position] = Some(pc);
                    proof {
                        lemma_slot_restore(pre, state@, acting_player as int, position as int);
                    }
                },
            }
        },
    }
}

/// Writing one slot gives the snapshot with only that slot replaced; the
/// count change is the difference of the slots' own card counts.
proof fn lemma_slot_set(pre: StateV, post: StateV, p: int, i: int)
    requires
        pre.wf(),
        0 <= p < 2,
        0 <= i < 4,
        post =~~= (StateV {
            in_play_pokemon: pre.in_play_pokemon.update(
                p,
                pre.in_play_pokemon[p].update(i, post.slot(p, i)),
            ),
            ..pre
        }),
        crate::state::spec_slot_cards(post.slot(p, i)) == crate::state::spec_slot_cards(
            pre.slot(p, i),
        ),
        match (pre.slot(p, i), post.slot(p, i)) {
            (Some(a), Some(b)) => 0 < b.remaining_hp <= b.total_hp && b.card is Pokemon,
            (None, None) => true,
            _ => false,
        },
    ensures
        post.wf(),
        post.same_card_counts(pre),
        post =~~= (StateV { in_play_pokemon: post.in_play_pokemon, ..pre }),
{
    crate::state::lemma_slots_cards_update(pre.in_play_pokemon[p], i, post.slot(p, i));
}

} // verus!

verus! {

/// Resolves an attack by the actor's active Pokemon: the printed damage,
/// doubled against a defender weak to the attacker's type and raised by ten
/// for each Giovanni in effect, lands on the opposing active; a Rocky
/// Helmet on the struck defender deals twenty back; knockouts resolve as
/// usual; the attack's own printed effect (healing, an energy discard) runs
/// last. Without an active attacker, a declared attack of that index, or a
/// defender, nothing happens to the missing part.
pub fn apply_attack(acting_player: usize, state: &mut State, index: usize)
    requires
        old(state)@.wf(),
        acting_player < 2,
    ensures
        final(state)@.wf(),
        final(state)@.same_card_counts(old(state)@),
        final(state)@.turn_count == old(state)@.turn_count,
        final(state)@.current_player == old(state)@.current_player,
        final(state)@.hands == old(state)@.hands,
        final(state)@.decks == old(state)@.decks,
{
    let opponent = (acting_player + 1) % 2;
    proof {
        assert(state@.in_play_pokemon.len() == 2);
        assert(state@.in_play_pokemon[acting_player as int].len() == 4);
        assert(state@.in_play_pokemon[opponent as int].len() == 4);
    }
    let attacker = match &state.in_play_pokemon[acting_player][0] {
        Some(pc) => pc,
        None => {
            return ;
        },
    };
    let attacker_type = attacker.get_energy_type();
    let attacks = match &attacker.card {
        crate::types::Card::Pokemon(pk) => &pk.attacks,
        crate::types::Card::Trainer(_) => {
            return ;
        },
    };
    if index >= attacks.len() {
        return ;
    }
    let base = attacks[index].fixed_damage;
    let effect = crate::attack_ids::AttackId::from_title(attacks[index].title.as_str());
    // Weakness doubles the damage; each Giovanni in effect adds ten.
    let mut damage: u128 = base as u128;
    match &state.in_play_pokemon[opponent][0] {
        Some(def) => {
            let weak = match &def.card {
                crate::types::Card::Pokemon(pk) => match (pk.weakness, attacker_type) {
                    (Some(w), Some(t)) => w == t,
                    _ => false,
                },
                crate::types::Card::Trainer(_) => false,
            };
            if weak {
                damage = damage * 2;
            }
        },
        None => {},
    }
    let effects = state.get_current_turn_effects();
    let mut e: usize = 0;
    while e < effects.len()
        invariant
            e <= effects@.len(),
            damage <= u32::MAX as u128 * 2 + 10 * e,
            *state == *old(state),
        decreases effects@.len() - e,
    {
        match &effects[e] {
            crate::types::Card::Trainer(t) => {
                if t.numeric_id == 223 || t.numeric_id == 270 {
                    damage = damage + 10;
                }
            },
            crate::types::Card::Pokemon(_) => {},
        }
        e += 1;
    }
    let damage32: u32 = if damage > u32::MAX as u128 {
        u32::MAX
    } else {
        damage as u32
    };
    let defender_had_helmet = match &state.in_play_pokemon[opponent][0] {
        Some(def) => match def.attached_tool {
            Some(crate::tool_ids::ToolId::PA010RockyHelmet) => true,
            _ => false,
        },
        None => false,
    };
    damage_slot(state, opponent, 0, damage32);
    if defender_had_helmet && damage32 > 0 {
        damage_slot(state, acting_player, 0, 20);
    }
    match effect {
        Some(crate::attack_ids::AttackId::HealThirtyFromSelf) => {
            apply_healing(acting_player, state, 0, 30);
        },
        Some(crate::attack_ids::AttackId::DiscardFireFromSelf) => {
            let ghost pre2 = state@;
            proof {
                assert(state@.in_play_pokemon.len() == 2);
                assert(state@.in_play_pokemon[acting_player as int].len() == 4);
            }
            let slot = state.in_play_pokemon[acting_player][0].take();
            match slot {
                Some(pc) => {
                    let mut pc = pc;
                    pc.discard_energy(&crate::types::EnergyType::Fire);
                    state.in_play_pokemon[acting_player][0] = Some(pc);
                    proof {
                        let p = acting_player as int;
                        assert(state@.in_play_pokemon =~~= pre2.in_play_pokemon.update(
                            p,
                            pre2.in_play_pokemon[p].update(0, state@.slot(p, 0)),
                        ));
                        assert(state@ =~~= (StateV {
                            in_play_pokemon: state@.in_play_pokemon,
                            ..pre2
                        }));
                        lemma_slot_set(pre2, state@, p, 0);
                    }
                },
                None => {
                    state.in_play_pokemon[acting_player][0] = None;
                    proof {
                        lemma_slot_restore(pre2, state@, acting_player as int, 0);
                    }
                },
            }
        },
        None => {},
    }
}

/// The forecast of an attack: every attack the engine implements resolves
/// deterministically, so the forecast is a single outcome.
pub fn forecast_attack(acting_player: usize, state: &State, index: usize) -> (r: (
    Probabilities,
    Vec<Outcome>,
))
    ensures
        spec_valid_forecast(r.0@, r.1@),
        r.0@.len() == 1,
        r.1@ =~= seq![Outcome::Deterministic],
{
    let _ = acting_player;
    let _ = state;
    let _ = index;
    deterministic_outcome()
}

/// Whether the active Pokemon of player `p` is asleep.
pub open spec fn spec_active_asleep(s: StateV, p: int) -> bool {
    s.slot(p, 0) matches Some(pc) && pc.asleep
}

/// The exact checkup forecast: one fair coin per sleeping active Pokemon,
/// in sixty-fourths, the waking player's coin drawn first.
pub open spec fn spec_checkup_forecast(s: StateV, probs: Seq<u32>, outcomes: Seq<Outcome>) -> bool {
    let a = spec_active_asleep(s, s.current_player as int);
    let o = spec_active_asleep(s, 1 - s.current_player as int);
    if a && o {
        &&& probs =~= seq![16u32, 16u32, 16u32, 16u32]
        &&& outcomes =~= seq![
            (Outcome::CheckUp { actor_wakes: false, opponent_wakes: false }),
            (Outcome::CheckUp { actor_wakes: false, opponent_wakes: true }),
            (Outcome::CheckUp { actor_wakes: true, opponent_wakes: false }),
            (Outcome::CheckUp { actor_wakes: true, opponent_wakes: true }),
        ]
    } else if a || o {
        &&& probs =~= seq![32u32, 32u32]
        &&& outcomes =~= seq![
            (Outcome::CheckUp { actor_wakes: a, opponent_wakes: o }),
            (Outcome::CheckUp { actor_wakes: false, opponent_wakes: false }),
        ]
    } else {
        &&& probs =~= seq![64u32]
        &&& outcomes =~= seq![(Outcome::CheckUp { actor_wakes: false, opponent_wakes: false })]
    }
}

/// The forecast of ending the turn: the between-turns checkup is genuinely
/// probabilistic, one fair coin per sleeping active Pokemon.
pub fn forecast_end_turn(state: &State) -> (r: (Probabilities, Vec<Outcome>))
    requires
        state@.wf(),
    ensures
        spec_valid_forecast(r.0@, r.1@),
        spec_checkup_forecast(state@, r.0@, r.1@),
{
    let cp = state.current_player;
    let opp = (cp + 1) % 2;
    proof {
        assert(state@.in_play_pokemon.len() == 2);
        assert(state@.in_play_pokemon[cp as int].len() == 4);
        assert(state@.in_play_pokemon[opp as int].len() == 4);
    }
    let actor_asleep = match &state.in_play_pokemon[cp][0] {
        Some(pc) => pc.asleep,
        None => false,
    };
    let opp_asleep = match &state.in_play_pokemon[opp][0] {
        Some(pc) => pc.asleep,
        None => false,
    };
    let mut probs: Probabilities = Vec::new();
    let mut outcomes: Vec<Outcome> = Vec::new();
    if actor_asleep && opp_asleep {
        probs.push(16);
        probs.push(16);
        probs.push(16);
        probs.push(16);
        outcomes.push(Outcome::CheckUp { actor_wakes: false, opponent_wakes: false });
        outcomes.push(Outcome::CheckUp { actor_wakes: false, opponent_wakes: true });
        outcomes.push(Outcome::CheckUp { actor_wakes: true, opponent_wakes: false });
        outcomes.push(Outcome::CheckUp { actor_wakes: true, opponent_wakes: true });
        proof {
            lemma_sum_first(probs@);
            lemma_sum_first(probs@.drop_first());
            lemma_sum_first(probs@.drop_first().drop_first());
            lemma_sum_first(probs@.drop_first().drop_first().drop_first());
            lemma_sum_empty(probs@.drop_first().drop_first().drop_first().drop_first());
        }
    } else if actor_asleep || opp_asleep {
        probs.push(32);
        probs.push(32);
        outcomes.push(
            Outcome::CheckUp { actor_wakes: actor_asleep, opponent_wakes: opp_asleep },
        );
        outcomes.push(Outcome::CheckUp { actor_wakes: false, opponent_wakes: false });
        proof {
            lemma_sum_first(probs@);
            lemma_sum_first(probs@.drop_first());
            lemma_sum_empty(probs@.drop_first().drop_first());
        }
    } else {
        probs.push(64);
        outcomes.push(Outcome::CheckUp { actor_wakes: false, opponent_wakes: false });
        proof {
            lemma_sum_first(probs@);
            lemma_sum_empty(probs@.drop_first());
        }
    }
    (probs, outcomes)
}

/// Sets the active Pokemon's status flags for the between-turns checkup:
/// poison is read elsewhere; a sleeping Pokemon may wake; paralysis wears
/// off for the player whose turn ends.
fn checkup_statuses(state: &mut State, player: usize, wakes: bool, clear_paralysis: bool)
    requires
        old(state)@.wf(),
        player < 2,
    ensures
        final(state)@.wf(),
        final(state)@.same_card_counts(old(state)@),
        final(state)@ =~~= (StateV {
            in_play_pokemon: final(state)@.in_play_pokemon,
            ..old(state)@
        }),
{
    let ghost pre = state@;
    proof {
        assert(state@.in_play_pokemon.len() == 2);
        assert(state@.in_play_pokemon[player as int].len() == 4);
    }
    let slot = state.in_play_pokemon[player][0].take();
    match slot {
        Some(pc) => {
            let mut pc = pc;
            if pc.asleep && wakes {
                pc.asleep = false;
            }
            if clear_paralysis {
                pc.paralyzed = false;
            }
            state.in_play_pokemon[player][0] = Some(pc);
            proof {
                let p = player as int;
                assert(state@.in_play_pokemon =~~= pre.in_play_pokemon.update(
                    p,
                    pre.in_play_pokemon[p].update(0, state@.slot(p, 0)),
                ));
                assert(state@ =~~= (StateV { in_play_pokemon: state@.in_play_pokemon, ..pre }));
                lemma_slot_set(pre, state@, p, 0);
            }
        },
        None => {
            state.in_play_pokemon[player][0] = None;
            proof {
                lemma_slot_restore(pre, state@, player as int, 0);
            }
        },
    }
}

/// The between-turns checkup and the hand-over of the turn: each poisoned
/// active takes ten damage (and may be knocked out), sleeping actives wake
/// according to the drawn outcome, paralysis wears off the ending player's
/// active, and, unless the game has ended, the turn passes to the other
/// player with the per-turn flags cleared.
pub fn apply_checkup(
    state: &mut State,
    rng: &mut rand::rngs::StdRng,
    actor_wakes: bool,
    opponent_wakes: bool,
)
    requires
        old(state)@.wf(),
    ensures
        final(state)@.wf(),
        final(state)@.same_card_counts(old(state)@),
        final(state)@.turn_count == old(state)@.turn_count || final(state)@.turn_count == old(state)@.turn_count + 1,
        final(state)@.turn_count == old(state)@.turn_count + 1 ==> !final(state)@.has_played_support && !final(state)@.has_retreated,
        old(state)@.turn_count <= 100 ==> final(state)@.turn_count <= 100,
{
    let cp = state.current_player;
    let opp = (cp + 1) % 2;
    proof {
        assert(state@.in_play_pokemon.len() == 2);
        assert(state@.in_play_pokemon[cp as int].len() == 4);
        assert(state@.in_play_pokemon[opp as int].len() == 4);
    }
    let cp_poisoned = match &state.in_play_pokemon[cp][0] {
        Some(pc) => pc.poisoned,
        None => false,
    };
    if cp_poisoned {
        damage_slot(state, cp, 0, 10);
    }
    proof {
        assert(state@.in_play_pokemon.len() == 2);
        assert(state@.in_play_pokemon[opp as int].len() == 4);
    }
    let opp_poisoned = match &state.in_play_pokemon[opp][0] {
        Some(pc) => pc.poisoned,
        None => false,
    };
    if opp_poisoned {
        damage_slot(state, opp, 0, 10);
    }
    checkup_statuses(state, cp, actor_wakes, true);
    checkup_statuses(state, opp, opponent_wakes, false);
    if !state.is_game_over() {
        state.advance_turn(rng);
    }
}

/// Commits a played trainer card by its numeric identifier; an identifier
/// the engine does not implement leaves the state as the common prelude
/// left it.
pub(crate) fn apply_trainer_commit(
    rng: &mut rand::rngs::StdRng,
    state: &mut State,
    action: &Action,
)
    requires
        old(state)@.wf(),
        action.actor < 2,
    ensures
        final(state)@.wf(),
        final(state)@.same_card_counts(old(state)@),
        final(state)@.turn_count == old(state)@.turn_count,
        final(state)@.current_player == old(state)@.current_player,
        final(state)@.winner == old(state)@.winner,
{
    let numeric_id = match &action.action {
        SimpleAction::Play { trainer_card } => trainer_card.numeric_id,
        _ => {
            return ;
        },
    };
    if numeric_id == 901 {
        crate::trainer_actions::potion_effect_safe(state, action);
    } else if numeric_id == 219 || numeric_id == 266 {
        crate::trainer_actions::erika_effect_safe(state, action);
    } else if numeric_id == 222 || numeric_id == 269 {
        crate::trainer_actions::koga_effect_safe(state, action);
    } else if numeric_id == 223 || numeric_id == 270 {
        crate::trainer_actions::giovanni_effect_safe(state, action);
    } else if numeric_id == 902 || numeric_id == 368 || numeric_id == 382 {
        crate::trainer_actions::turn_effect_safe(state, action);
    } else if numeric_id == 225 || numeric_id == 272 {
        crate::trainer_actions::sabrina_effect_safe(state, action);
    } else if numeric_id == 550 || numeric_id == 590 {
        crate::trainer_actions::cyrus_effect_safe(state, action);
    } else if numeric_id == 547 || numeric_id == 910 {
        crate::trainer_actions::attach_tool_safe(state, action);
    } else if numeric_id == 905 {
        crate::trainer_actions::pokeball_commit(rng, state, action.actor);
    } else if numeric_id == 906 {
        crate::trainer_actions::red_card_commit(rng, state, action.actor);
    } else if numeric_id == 907 {
        crate::trainer_actions::professor_research_commit(state, action.actor);
    } else if numeric_id == 365 {
        crate::trainer_actions::mythical_slab_commit(state, action.actor);
    }
}

/// What drawing one card leaves of the state: the deck's top moves to the
/// back of the hand; an empty deck draws nothing.
pub open spec fn spec_drawn(pre: StateV, post: StateV, p: int) -> bool {
    if pre.decks[p].cards.len() == 0 {
        post =~~= pre
    } else {
        post =~~= (StateV {
            hands: pre.hands.update(p, pre.hands[p].push(pre.decks[p].cards[0])),
            decks: pre.decks.update(
                p,
                crate::deck::DeckV { cards: pre.decks[p].cards.drop_first(), ..pre.decks[p] },
            ),
            ..pre
        })
    }
}

/// Commits an action whose kind resolves in one fixed way, leaving exactly
/// what the operation for that kind prescribes.
pub fn apply_deterministic_action(state: &mut State, action: &Action)
    requires
        old(state)@.wf(),
        action.actor < 2,
    ensures
        final(state)@.wf(),
        final(state)@.same_card_counts(old(state)@),
        final(state)@.turn_count == old(state)@.turn_count,
        final(state)@.current_player == old(state)@.current_player,
        ({
            let p = action.actor as int;
            match action.action {
                SimpleAction::DrawCard => spec_drawn(old(state)@, final(state)@, p),
                SimpleAction::Attach { attachments, is_turn_energy } => {
                    &&& final(state)@ =~~= (StateV {
                        in_play_pokemon: final(state)@.in_play_pokemon,
                        current_energy: if is_turn_energy {
                            None
                        } else {
                            old(state)@.current_energy
                        },
                        ..old(state)@
                    })
                    &&& forall|q: int, i: int|
                        0 <= q < 2 && 0 <= i < 4 ==> match (
                            old(state)@.slot(q, i),
                            #[trigger] final(state)@.slot(q, i),
                        ) {
                            (Some(a), Some(b)) => b == (crate::types::PlayedCard {
                                attached_energy: b.attached_energy,
                                ..a
                            }) && b.attached_energy@.len() >= a.attached_energy@.len(),
                            (None, None) => true,
                            _ => false,
                        }
                },
                SimpleAction::AttachTool { in_play_idx, tool_id } => {
                    &&& final(state)@ =~~= (StateV {
                        in_play_pokemon: final(state)@.in_play_pokemon,
                        ..old(state)@
                    })
                    &&& (in_play_idx < 4 && old(state)@.slot(p, in_play_idx as int) is Some)
                        ==> (final(state)@.slot(p, in_play_idx as int) matches Some(npc)
                        && npc.attached_tool == Some(tool_id))
                },
                SimpleAction::Place(card, index) => spec_placed(
                    old(state)@,
                    final(state)@,
                    p,
                    card,
                    index,
                ),
                SimpleAction::Evolve(card, position) => spec_evolved(
                    old(state)@,
                    final(state)@,
                    p,
                    card,
                    position,
                ),
                SimpleAction::UseAbility(position) => spec_ability_used(
                    old(state)@,
                    final(state)@,
                    p,
                    position,
                ),
                SimpleAction::Activate { in_play_idx } => spec_retreated(
                    old(state)@,
                    final(state)@,
                    p,
                    in_play_idx,
                    true,
                ),
                SimpleAction::Retreat(position) => spec_retreated(
                    old(state)@,
                    final(state)@,
                    p,
                    position,
                    false,
                ),
                SimpleAction::ApplyDamage { targets } => {
                    &&& final(state)@.hands == old(state)@.hands
                    &&& final(state)@.decks == old(state)@.decks
                    &&& targets@.len() == 1 && targets@[0].1 < 4 ==> spec_damaged(
                        old(state)@,
                        final(state)@,
                        (1 - action.actor) as usize,
                        targets@[0].1,
                        targets@[0].0,
                    )
                    &&& targets@.len() == 1 && targets@[0].1 >= 4 ==> final(state)@ =~~= old(state)@
                },
                SimpleAction::Heal { in_play_idx, amount } => spec_healed(
                    old(state)@,
                    final(state)@,
                    p,
                    in_play_idx,
                    amount,
                ),
                SimpleAction::Attack(_) => final(state)@.hands == old(state)@.hands
                    && final(state)@.decks == old(state)@.decks,
                SimpleAction::Play { .. } => final(state)@ =~~= old(state)@,
                SimpleAction::EndTurn => final(state)@ =~~= old(state)@,
            }
        }),
{
    match &action.action {
        SimpleAction::DrawCard => {
            state.maybe_draw_card(action.actor);
        },
        SimpleAction::Attach { attachments, is_turn_energy } => {
            apply_attach(action.actor, state, attachments, *is_turn_energy);
        },
        SimpleAction::AttachTool { in_play_idx, tool_id } => {
            apply_attach_tool(action.actor, state, *in_play_idx, *tool_id);
        },
        SimpleAction::Place(card, index) => {
            apply_place(action.actor, state, card, *index);
        },
        SimpleAction::Evolve(card, position) => {
            apply_evolve(action.actor, state, card, *position);
        },
        SimpleAction::UseAbility(position) => {
            apply_abilities_action(action.actor, state, *position);
        },
        SimpleAction::Activate { in_play_idx } => {
            apply_retreat(action.actor, state, *in_play_idx, true);
        },
        SimpleAction::Retreat(position) => {
            apply_retreat(action.actor, state, *position, false);
        },
        SimpleAction::ApplyDamage { targets } => {
            handle_attack_damage(state, action.actor, targets);
        },
        SimpleAction::Heal { in_play_idx, amount } => {
            apply_healing(action.actor, state, *in_play_idx, *amount);
        },
        SimpleAction::Attack(index) => {
            apply_attack(action.actor, state, *index);
        },
        SimpleAction::Play { .. } => {},
        SimpleAction::EndTurn => {},
    }
}

/// Deals the listed damage to the actor's opponent: for each entry, the
/// amount to the opposing Pokemon in the slot, knockouts included.
pub fn handle_attack_damage(
    state: &mut State,
    acting_player: usize,
    targets: &Vec<(u32, usize)>,
)
    requires
        old(state)@.wf(),
        acting_player < 2,
    ensures
        final(state)@.wf(),
        final(state)@.same_card_counts(old(state)@),
        final(state)@.turn_count == old(state)@.turn_count,
        final(state)@.current_player == old(state)@.current_player,
        final(state)@.hands == old(state)@.hands,
        final(state)@.decks == old(state)@.decks,
        targets@.len() == 1 && targets@[0].1 < 4 ==> spec_damaged(
            old(state)@,
            final(state)@,
            (1 - acting_player) as usize,
            targets@[0].1,
            targets@[0].0,
        ),
        targets@.len() == 1 && targets@[0].1 >= 4 ==> final(state)@ =~~= old(state)@,
{
    let opponent = (acting_player + 1) % 2;
    let mut k: usize = 0;
    while k < targets.len()
        invariant
            opponent < 2,
            opponent == 1 - acting_player,
            k <= targets@.len(),
            state@.wf(),
            state@.same_card_counts(old(state)@),
            state@.turn_count == old(state)@.turn_count,
            state@.current_player == old(state)@.current_player,
            state@.hands == old(state)@.hands,
            state@.decks == old(state)@.decks,
            k == 0 ==> state@ == old(state)@,
            (k >= 1 && targets@.len() == 1 && targets@[0].1 < 4) ==> spec_damaged(
                old(state)@,
                state@,
                opponent,
                targets@[0].1,
                targets@[0].0,
            ),
            (k >= 1 && targets@.len() == 1 && targets@[0].1 >= 4) ==> state@ =~~= old(state)@,
        decreases targets@.len() - k,
    {
        let (amount, idx) = targets[k];
        if idx < 4 {
            damage_slot(state, opponent, idx, amount);
        }
        k += 1;
    }
}

/// The full forecast of an action: as many probabilities as outcomes, all
/// positive, summing to exactly one; and a single outcome for every
/// action that would otherwise reveal hidden cards, as well as for
/// every action whose kind is deterministic.
pub fn forecast_action(state: &State, action: &Action) -> (r: (Probabilities, Vec<Outcome>))
    requires
        state@.wf(),
    ensures
        spec_valid_forecast(r.0@, r.1@),
        spec_hidden_information_action(action.action) ==> r.0@.len() == 1,
        match action.action {
            SimpleAction::Attack(_) => r.1@ =~= seq![Outcome::Deterministic],
            SimpleAction::EndTurn => spec_checkup_forecast(state@, r.0@, r.1@),
            SimpleAction::Play { trainer_card } => if crate::trainer_actions::spec_is_misty(
                trainer_card.numeric_id,
            ) {
                r.0@ =~= seq![32u32, 16u32, 8u32, 4u32, 2u32, 2u32] && (forall|i: int|
                    0 <= i < 6 ==> r.1@[i] == Outcome::MistyHeads(i as u32))
            } else {
                r.1@ =~= seq![Outcome::TrainerPlay]
            },
            _ => r.1@ =~= seq![Outcome::Deterministic],
        },
{
    match &action.action {
        SimpleAction::Attack(index) => forecast_attack(action.actor, state, *index),
        SimpleAction::Play { trainer_card } => forecast_trainer_action_safe(
            action.actor,
            state,
            trainer_card,
        ),
        SimpleAction::EndTurn => forecast_end_turn(state),
        _ => deterministic_outcome(),
    }
}

/// Applies an action: its outcomes are forecast, one is drawn according to
/// the forecast probabilities, the common prelude runs, and the drawn
/// outcome commits. Both players account for the same cards afterwards as
/// before, and the turn counter never moves backwards.
pub fn apply_action(rng: &mut rand::rngs::StdRng, state: &mut State, action: &Action)
    requires
        old(state)@.wf(),
        action.actor < 2,
    ensures
        final(state)@.wf(),
        final(state)@.same_card_counts(old(state)@),
        final(state)@.turn_count >= old(state)@.turn_count,
        old(state)@.turn_count <= 100 ==> final(state)@.turn_count <= 100,
        !action.is_stack ==> match action.action {
            SimpleAction::Play { trainer_card } => exists|mid: StateV|
                #![trigger mid.same_card_counts(old(state)@)]
                {
                    &&& spec_play_prelude(
                        old(state)@,
                        mid,
                        action.actor as int,
                        trainer_card@,
                        trainer_card.trainer_card_type == crate::types::TrainerType::Supporter,
                    )
                    &&& final(state)@.same_card_counts(mid)
                    &&& final(state)@.winner == mid.winner
                    &&& final(state)@.turn_count == mid.turn_count
                    &&& final(state)@.current_player == mid.current_player
                },
            SimpleAction::ApplyDamage { targets } => (targets@.len() == 1 && targets@[0].1 < 4)
                ==> spec_damaged(
                old(state)@,
                final(state)@,
                (1 - action.actor) as usize,
                targets@[0].1,
                targets@[0].0,
            ),
            _ => true,
        },
{
    let (probs, mut outcomes) = forecast_action(state, action);
    let ghost outcomes_pre = outcomes@;
    let chosen = if probs.len() == 1 {
        0
    } else {
        sample_index(rng, &probs)
    };
    let outcome = outcomes.remove(chosen);
    let ghost out = outcome;
    apply_common_mutation(state, action);
    let ghost mid0 = state@;
    proof {
        match &action.action {
            SimpleAction::Play { trainer_card } => {
                if !action.is_stack {
                    assert(spec_play_prelude(
                        old(state)@,
                        mid0,
                        action.actor as int,
                        trainer_card@,
                        trainer_card.trainer_card_type == crate::types::TrainerType::Supporter,
                    ));
                    assert(out == outcomes_pre[chosen as int]);
                    assert(out is TrainerPlay || out is MistyHeads);
                }
            },
            SimpleAction::ApplyDamage { .. } => {
                if !action.is_stack {
                    assert(mid0 =~~= old(state)@);
                    assert(out == outcomes_pre[chosen as int]);
                    assert(out is Deterministic);
                }
            },
            _ => {},
        }
    }
    match outcome {
        Outcome::Deterministic => {
            apply_deterministic_action(state, action);
        },
        Outcome::TrainerPlay => {
            apply_trainer_commit(rng, state, action);
        },
        Outcome::MistyHeads(heads) => {
            crate::trainer_actions::apply_misty_heads(state, action, heads);
        },
        Outcome::CheckUp { actor_wakes, opponent_wakes } => {
            apply_checkup(state, rng, actor_wakes, opponent_wakes);
        },
    }
    proof {
        match &action.action {
            SimpleAction::Play { trainer_card } => {
                if !action.is_stack {
                    assert(spec_play_prelude(
                        old(state)@,
                        mid0,
                        action.actor as int,
                        trainer_card@,
                        trainer_card.trainer_card_type == crate::types::TrainerType::Supporter,
                    ) && state@.same_card_counts(mid0) && state@.winner == mid0.winner
                        && state@.turn_count == mid0.turn_count && state@.current_player
                        == mid0.current_player);
                    assert(mid0.same_card_counts(old(state)@));
                }
            },
            SimpleAction::ApplyDamage { targets } => {
                if !action.is_stack && targets@.len() == 1 && targets@[0].1 < 4 {
                    assert(spec_damaged(
                        mid0,
                        state@,
                        (1 - action.actor) as usize,
                        targets@[0].1,
                        targets@[0].0,
                    ));
                    assert(mid0 == old(state)@);
                }
            },
            _ => {},
        }
    }
}

} // verus!
