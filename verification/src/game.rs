use vstd::prelude::*;
use crate::actions::{Action, SimpleAction};
use crate::apply_action::apply_action;
use crate::move_generation::generate_possible_actions;
use crate::players::Player;
use crate::rng::seed_rng;
use crate::state::{GameOutcome, State, StateV};

verus! {

/// The bound on driver steps in one match: generous enough for any match
/// that the hundred-turn limit admits.
pub const MAX_TICKS: u64 = 100000;

/// A running match: the two agents, the seeded generator, the state, and
/// whether a committed attack still owes the end of its turn.
pub struct Game {
    players: Vec<Box<dyn Player>>,
    rng: rand::rngs::StdRng,
    state: State,
    pending_turn_end: bool,
}

impl Game {
    /// The mathematical image of the match state.
    pub closed spec fn spec_state(&self) -> StateV {
        self.state@
    }

    /// Whether the match data is well formed: two agents and a well-formed state.
    pub closed spec fn wf(&self) -> bool {
        self.players@.len() == 2 && self.state@.wf() && self.state@.turn_count <= 100
    }

    /// Sets a match up from two agents and a seed: decks are taken from the
    /// agents, the opening hands are dealt, each player is owed the placement
    /// of an active Basic as a sub-decision, and the first turn begins with
    /// the starting player's energy, but no draw.
    pub fn new(players: Vec<Box<dyn Player>>, seed: u64) -> (r: Game)
        requires
            players@.len() == 2,
        ensures
            r.wf(),
            r.spec_state().turn_count == 1,
            r.spec_state().winner is None,
    {
        let deck_a = players[0].get_deck();
        let deck_b = players[1].get_deck();
        let mut rng = seed_rng(seed);
        let mut state = State::initialize(&deck_a, &deck_b, &mut rng);
        let start = state.current_player;
        let other = (start + 1) % 2;
        // The player placing second is pushed first, so the starting player
        // answers first.
        push_opening_placements(&mut state, other);
        push_opening_placements(&mut state, start);
        state.turn_count = 1;
        state.generate_energy(&mut rng);
        Game { players, rng, state, pending_turn_end: false }
    }

    /// A copy of the match state, for agents and observers.
    pub fn get_state_clone(&self) -> State {
        self.state.clone()
    }

    /// Runs one decision: with an attack's turn-end owed and no sub-decision
    /// outstanding, the turn ends; a sub-decision without a legal reply is
    /// dropped; otherwise the decision's owner picks among the legal actions
    /// and the choice is committed.
    pub fn play_tick(&mut self)
        requires
            old(self).wf(),
        ensures
            final(self).wf(),
            final(self).spec_state().turn_count >= old(self).spec_state().turn_count,
            final(self).spec_state().same_card_counts(old(self).spec_state()),
            (old(self).spec_state().winner is Some || old(self).spec_state().turn_count >= 100)
                ==> final(self).spec_state() == old(self).spec_state(),
    {
        if self.state.is_game_over() {
            return ;
        }
        if self.pending_turn_end && self.state.move_generation_stack.len() == 0 {
            self.pending_turn_end = false;
            let actor = self.state.current_player;
            let end = Action { actor, action: SimpleAction::EndTurn, is_stack: false };
            apply_action(&mut self.rng, &mut self.state, &end);
            return ;
        }
        let (actor, actions) = generate_possible_actions(&self.state);
        if actions.len() == 0 {
            // A sub-decision without a legal reply is dropped.
            if self.state.move_generation_stack.len() > 0 {
                let ghost pre = self.state@;
                self.state.move_generation_stack.pop();
                proof {
                    assert(self.state@ =~~= (StateV {
                        move_generation_stack: pre.move_generation_stack.drop_last(),
                        ..pre
                    }));
                }
            }
            return ;
        }
        let chosen = if actor == 0 {
            let (first, rest) = self.players.split_at_mut(1);
            let _ = rest;
            first[0].decision_fn(&mut self.rng, &self.state, actions)
        } else {
            let (_, rest) = self.players.split_at_mut(1);
            rest[0].decision_fn(&mut self.rng, &self.state, actions)
        };
        let was_attack = match chosen.action {
            SimpleAction::Attack(_) => !chosen.is_stack,
            _ => false,
        };
        apply_action(&mut self.rng, &mut self.state, &chosen);
        if was_attack {
            self.pending_turn_end = true;
        }
    }

    /// Runs the match to its end: a win, a tie, or the hundred-turn limit,
    /// at which the higher point total wins and equal totals tie. `None`
    /// means the engine stopped early, after exhausting its step bound
    /// without the match ending. The turn counter never passes one hundred
    ///
    pub fn play(&mut self) -> (r: Option<GameOutcome>)
        requires
            old(self).wf(),
        ensures
            final(self).wf(),
            final(self).spec_state().turn_count <= 100,
            r matches Some(w) ==> final(self).spec_state().winner == Some(w),
            r is None ==> final(self).spec_state().winner is None && final(self).spec_state().turn_count < 100,
    {
        let mut fuel: u64 = MAX_TICKS;
        while fuel > 0 && !self.state.is_game_over()
            invariant
                self.wf(),
            decreases fuel,
        {
            self.play_tick();
            fuel = fuel - 1;
        }
        if !self.state.is_game_over() {
            return None;
        }
        let outcome = match self.state.winner {
            Some(w) => w,
            None => {
                // The turn limit was reached.
                limit_outcome(&self.state.points)
            },
        };
        let ghost pre = self.state@;
        self.state.winner = Some(outcome);
        proof {
            assert(self.state@ =~~= (StateV { winner: Some(outcome), ..pre }));
        }
        Some(outcome)
    }
}

/// The outcome at the hundred-turn limit: the higher point total wins and
/// equal totals tie.
pub open spec fn spec_limit_outcome(points: Seq<u8>) -> GameOutcome {
    if points[0] > points[1] {
        GameOutcome::Win(0)
    } else if points[1] > points[0] {
        GameOutcome::Win(1)
    } else {
        GameOutcome::Tie
    }
}

/// Decides a match that reached the turn limit, per `spec_limit_outcome`.
pub fn limit_outcome(points: &Vec<u8>) -> (r: GameOutcome)
    requires
        points@.len() == 2,
    ensures
        r == spec_limit_outcome(points@),
{
    if points[0] > points[1] {
        GameOutcome::Win(0)
    } else if points[1] > points[0] {
        GameOutcome::Win(1)
    } else {
        GameOutcome::Tie
    }
}

/// Pushes the opening sub-decision for one player: placing one of the Basic
/// Pokemon from their hand into the empty active spot.
fn push_opening_placements(state: &mut State, player: usize)
    requires
        old(state)@.wf(),
        player < 2,
    ensures
        final(state)@.wf(),
        final(state)@.same_card_counts(old(state)@),
        final(state)@ =~~= (StateV {
            move_generation_stack: final(state)@.move_generation_stack,
            ..old(state)@
        }),
{
    let mut opts: Vec<SimpleAction> = Vec::new();
    let hand_len = state.hands[player].len();
    let mut h: usize = 0;
    while h < hand_len
        invariant
            state@.wf(),
            player < 2,
            hand_len == state@.hands[player as int].len(),
            h <= hand_len,
            *state == *old(state),
        decreases hand_len - h,
    {
        if crate::deck::is_basic(&state.hands[player][h]) {
            opts.push(SimpleAction::Place(state.hands[player][h].clone(), 0));
        }
        h += 1;
    }
    let ghost pre = state@;
    let ghost opts_view = opts@;
    state.move_generation_stack.push((player, opts));
    proof {
        assert(state@.move_generation_stack =~~= pre.move_generation_stack.push(
            (player, opts_view),
        ));
        assert(state@ =~~= (StateV {
            move_generation_stack: state@.move_generation_stack,
            ..pre
        }));
    }
}

} // verus!
