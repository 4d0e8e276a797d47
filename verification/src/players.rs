use vstd::prelude::*;
use vstd::string::StringExecFns;
use crate::actions::{Action, SimpleAction};
use crate::deck::Deck;
use crate::rng::rand_index;
use crate::state::State;

verus! {

/// A decision agent: it brings a deck to the match and, whenever consulted,
/// picks one of the legal actions it is offered. Agents may inspect the
/// state but never mutate it; the engine owns all mutation.
pub trait Player {
    /// Picks one element of `possible_actions`.
    fn decision_fn(
        &mut self,
        rng: &mut rand::rngs::StdRng,
        state: &State,
        possible_actions: Vec<Action>,
    ) -> (r: Action)
        requires
            possible_actions@.len() > 0,
        ensures
            exists|i: int| 0 <= i < possible_actions@.len() && r == possible_actions@[i],
    ;

    /// The deck this agent plays.
    fn get_deck(&self) -> Deck;
}

/// An agent that picks uniformly at random among the offered actions.
pub struct RandomPlayer {
    pub deck: Deck,
}

impl RandomPlayer {
    /// The agent's name, for traces.
    pub fn label(&self) -> (r: String)
        ensures
            r@ == "RandomPlayer"@,
    {
        String::from_str("RandomPlayer")
    }
}

impl Player for RandomPlayer {
    fn decision_fn(
        &mut self,
        rng: &mut rand::rngs::StdRng,
        state: &State,
        possible_actions: Vec<Action>,
    ) -> (r: Action) {
        let _ = state;
        let mut possible_actions = possible_actions;
        let i = rand_index(rng, possible_actions.len());
        possible_actions.swap_remove(i)
    }

    fn get_deck(&self) -> Deck {
        self.deck.clone()
    }
}

/// An agent that attaches energy when it can, attacks when it can, and
/// otherwise takes the first offered action.
pub struct AttachAttackPlayer {
    pub deck: Deck,
}

impl AttachAttackPlayer {
    /// The agent's name, for traces.
    pub fn label(&self) -> (r: String)
        ensures
            r@ == "AttachAttackPlayer"@,
    {
        String::from_str("AttachAttackPlayer")
    }
}

impl Player for AttachAttackPlayer {
    fn decision_fn(
        &mut self,
        rng: &mut rand::rngs::StdRng,
        state: &State,
        possible_actions: Vec<Action>,
    ) -> (r: Action) {
        let _ = rng;
        let _ = state;
        let mut possible_actions = possible_actions;
        let mut pick: usize = 0;
        let mut found_attach = false;
        let mut found_attack = false;
        let mut i: usize = 0;
        while i < possible_actions.len()
            invariant
                i <= possible_actions@.len(),
                pick < possible_actions@.len() || pick == 0,
                possible_actions@.len() > 0 ==> pick < possible_actions@.len(),
            decreases possible_actions@.len() - i,
        {
            if !found_attach {
                match &possible_actions[i].action {
                    SimpleAction::Attach { .. } => {
                        pick = i;
                        found_attach = true;
                    },
                    SimpleAction::Attack(_) => {
                        if !found_attack {
                            pick = i;
                            found_attack = true;
                        }
                    },
                    _ => {},
                }
            }
            i += 1;
        }
        possible_actions.swap_remove(pick)
    }

    fn get_deck(&self) -> Deck {
        self.deck.clone()
    }
}

/// An agent that ends its turn whenever it may, and otherwise takes the
/// first offered action.
pub struct EndTurnPlayer {
    pub deck: Deck,
}

impl EndTurnPlayer {
    /// The agent's name, for traces.
    pub fn label(&self) -> (r: String)
        ensures
            r@ == "EndTurnPlayer"@,
    {
        String::from_str("EndTurnPlayer")
    }
}

impl Player for EndTurnPlayer {
    fn decision_fn(
        &mut self,
        rng: &mut rand::rngs::StdRng,
        state: &State,
        possible_actions: Vec<Action>,
    ) -> (r: Action) {
        let _ = rng;
        let _ = state;
        let mut possible_actions = possible_actions;
        let mut pick: usize = 0;
        let mut i: usize = 0;
        while i < possible_actions.len()
            invariant
                i <= possible_actions@.len(),
                possible_actions@.len() > 0 ==> pick < possible_actions@.len(),
            decreases possible_actions@.len() - i,
        {
            match &possible_actions[i].action {
                SimpleAction::EndTurn => {
                    pick = i;
                },
                _ => {},
            }
            i += 1;
        }
        possible_actions.swap_remove(pick)
    }

    fn get_deck(&self) -> Deck {
        self.deck.clone()
    }
}

} // verus!
