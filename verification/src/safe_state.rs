use vstd::prelude::*;
use vstd::string::StringExecFns;
use crate::errors::{GameError, GameResult};
use crate::state::{first_card_index, State, StateV};
use crate::types::{Card, PlayedCard};

verus! {

impl State {
    /// The remaining hit points of the Pokemon in the slot, or the error
    /// naming what was wrong: a player index past one, a position past
    /// three, or an empty slot; exactly one of these, in that order.
    pub fn get_remaining_hp_safe(&self, player: usize, index: usize) -> (r: GameResult<u32>)
        requires
            self@.wf(),
        ensures
            player >= 2 ==> r == Err::<u32, GameError>(GameError::InvalidPlayer { player }),
            player < 2 && index >= 4 ==> r == Err::<u32, GameError>(
                GameError::InvalidCardPosition { position: index, max: 3 },
            ),
            player < 2 && index < 4 ==> match self@.slot(player as int, index as int) {
                Some(pc) => r == Ok::<u32, GameError>(pc.remaining_hp),
                None => r == Err::<u32, GameError>(
                    GameError::NoPokemonAtPosition { player, position: index },
                ),
            },
    {
        if player >= 2 {
            return Err(GameError::InvalidPlayer { player });
        }
        if index >= 4 {
            return Err(GameError::invalid_position(index, 3));
        }
        match &self.in_play_pokemon[player][index] {
            Some(pc) => Ok(pc.remaining_hp),
            None => Err(GameError::no_pokemon(player, index)),
        }
    }

    /// Removes the first card equal to `card` from the player's hand, or
    /// reports the invalid player or the missing card.
    pub fn remove_card_from_hand_safe(&mut self, player: usize, card: &Card) -> (r: GameResult<()>)
        requires
            old(self)@.wf(),
        ensures
            final(self)@.wf(),
            player >= 2 ==> r == Err::<(), GameError>(GameError::InvalidPlayer { player })
                && final(self)@ =~~= old(self)@,
            player < 2 ==> {
                let p = player as int;
                let hand = old(self)@.hands[p];
                let i = first_card_index(hand, *card);
                if i >= 0 {
                    &&& r is Ok
                    &&& final(self)@ =~~= (StateV {
                        hands: old(self)@.hands.update(p, hand.update(i, hand.last()).drop_last()),
                        ..old(self)@
                    })
                    &&& final(self)@.card_count(p) == old(self)@.card_count(p) - 1
                } else {
                    (r matches Err(e) && e is CardNotInHand) && final(self)@ =~~= old(self)@
                }
            },
    {
        if player >= 2 {
            return Err(GameError::InvalidPlayer { player });
        }
        if !crate::state::first_card_index_exec(&self.hands[player], card) {
            let name = card.get_name();
            return Err(GameError::card_not_in_hand(name.as_str(), player));
        }
        self.remove_card_from_hand(player, card);
        Ok(())
    }

    /// Removes the first card equal to `card` from the player's hand and
    /// discards it, or reports the invalid player or the missing card.
    pub fn discard_card_from_hand_safe(&mut self, player: usize, card: &Card) -> (r: GameResult<
        (),
    >)
        requires
            old(self)@.wf(),
        ensures
            final(self)@.wf(),
            final(self)@.same_card_counts(old(self)@),
            player >= 2 ==> r == Err::<(), GameError>(GameError::InvalidPlayer { player })
                && final(self)@ =~~= old(self)@,
            player < 2 ==> {
                let p = player as int;
                let hand = old(self)@.hands[p];
                let i = first_card_index(hand, *card);
                if i >= 0 {
                    &&& r is Ok
                    &&& final(self)@ =~~= (StateV {
                        hands: old(self)@.hands.update(p, hand.update(i, hand.last()).drop_last()),
                        discard_piles: old(self)@.discard_piles.update(
                            p,
                            old(self)@.discard_piles[p].push(hand[i]),
                        ),
                        ..old(self)@
                    })
                } else {
                    (r matches Err(e) && e is CardNotInHand) && final(self)@ =~~= old(self)@
                }
            },
    {
        if player >= 2 {
            return Err(GameError::InvalidPlayer { player });
        }
        if !crate::state::first_card_index_exec(&self.hands[player], card) {
            let name = card.get_name();
            return Err(GameError::card_not_in_hand(name.as_str(), player));
        }
        proof {
            crate::state::lemma_first_card_index(self@.hands[player as int], *card);
        }
        self.discard_card_from_hand(player, card);
        Ok(())
    }

    /// The player's active Pokemon, or the error naming the invalid player
    /// or the empty active spot.
    pub fn get_active_safe(&self, player: usize) -> (r: GameResult<&PlayedCard>)
        requires
            self@.wf(),
        ensures
            player >= 2 ==> (r matches Err(e) && e == (GameError::InvalidPlayer { player })),
            player < 2 ==> match self@.slot(player as int, 0) {
                Some(pc) => r matches Ok(p) && *p == pc,
                None => r matches Err(e) && e == (GameError::NoActivePokemon { player }),
            },
    {
        if player >= 2 {
            return Err(GameError::InvalidPlayer { player });
        }
        match &self.in_play_pokemon[player][0] {
            Some(pc) => Ok(pc),
            None => Err(GameError::no_active(player)),
        }
    }

    /// The Pokemon in any slot, or the error naming what was wrong.
    pub fn get_pokemon_safe(&self, player: usize, position: usize) -> (r: GameResult<&PlayedCard>)
        requires
            self@.wf(),
        ensures
            player >= 2 ==> (r matches Err(e) && e == (GameError::InvalidPlayer { player })),
            player < 2 && position >= 4 ==> (r matches Err(e) && e == (
            GameError::InvalidCardPosition { position, max: 3 })),
            player < 2 && position < 4 ==> match self@.slot(player as int, position as int) {
                Some(pc) => r matches Ok(p) && *p == pc,
                None => r matches Err(e) && e == (GameError::NoPokemonAtPosition {
                    player,
                    position,
                }),
            },
    {
        if player >= 2 {
            return Err(GameError::InvalidPlayer { player });
        }
        if position >= 4 {
            return Err(GameError::invalid_position(position, 3));
        }
        match &self.in_play_pokemon[player][position] {
            Some(pc) => Ok(pc),
            None => Err(GameError::no_pokemon(player, position)),
        }
    }

    /// Checks that the game can continue: it is not over and both players
    /// have a Pokemon on the field.
    pub fn validate_game_state(&self) -> (r: GameResult<()>)
        requires
            self@.wf(),
        ensures
            (self@.winner is Some || self@.turn_count >= 100) ==> r == Err::<(), GameError>(
                GameError::GameAlreadyOver,
            ),
            !(self@.winner is Some || self@.turn_count >= 100) ==> {
                if (exists|i: int| 0 <= i < 4 && self@.slot(0, i) is Some) && (exists|i: int|
                    0 <= i < 4 && self@.slot(1, i) is Some) {
                    r is Ok
                } else {
                    r matches Err(e) && e is InvalidGameState
                }
            },
    {
        if self.is_game_over() {
            return Err(GameError::GameAlreadyOver);
        }
        let p0 = crate::trainer_actions::any_eligible(
            self,
            0,
            0,
            crate::trainer_actions::TargetFilter::Any,
        );
        let p1 = crate::trainer_actions::any_eligible(
            self,
            1,
            0,
            crate::trainer_actions::TargetFilter::Any,
        );
        proof {
            assert forall|i: int| 0 <= i < 4 implies (crate::trainer_actions::spec_slot_eligible(
                self@,
                0,
                i,
                crate::trainer_actions::TargetFilter::Any,
            ) == (#[trigger] self@.slot(0, i) is Some)) by {}
            assert forall|i: int| 0 <= i < 4 implies (crate::trainer_actions::spec_slot_eligible(
                self@,
                1,
                i,
                crate::trainer_actions::TargetFilter::Any,
            ) == (#[trigger] self@.slot(1, i) is Some)) by {}
            assert(p0 == exists|i: int| 0 <= i < 4 && (#[trigger] self@.slot(0, i)) is Some);
            assert(p1 == exists|i: int| 0 <= i < 4 && (#[trigger] self@.slot(1, i)) is Some);
        }
        if !p0 || !p1 {
            return Err(
                GameError::InvalidGameState {
                    description: String::from_str("At least one player has no Pokemon in play"),
                },
            );
        }
        Ok(())
    }

    /// Draws this turn's energy, or reports the invalid player or a deck
    /// that declares no energy types.
    pub fn generate_energy_safe(&mut self, rng: &mut rand::rngs::StdRng) -> (r: GameResult<()>)
        requires
            old(self)@.wf(),
        ensures
            final(self)@.wf(),
            final(self)@.same_card_counts(old(self)@),
            ({
                let pool = old(self)@.decks[old(self)@.current_player as int].energy_types;
                if pool.len() == 0 {
                    (r matches Err(e) && e is InvalidDeckFormat) && final(self)@ =~~= old(self)@
                } else {
                    &&& r is Ok
                    &&& final(self)@ =~~= (StateV {
                        current_energy: final(self)@.current_energy,
                        ..old(self)@
                    })
                    &&& final(self)@.current_energy matches Some(e) && pool.contains(e)
                    &&& pool.len() == 1 ==> final(self)@.current_energy == Some(pool[0])
                }
            }),
    {
        let cp = self.current_player;
        if self.decks[cp].energy_types.len() == 0 {
            return Err(
                GameError::InvalidDeckFormat {
                    reason: String::from_str("Deck has no energy types defined"),
                },
            );
        }
        self.generate_energy(rng);
        Ok(())
    }
}

/// The strict form of evolution: beyond what the committed action checks,
/// the evolution chain is enforced, and each rejected input is named.
pub fn apply_evolve_safe(
    acting_player: usize,
    state: &mut State,
    card: &Card,
    position: usize,
) -> (r: GameResult<()>)
    requires
        old(state)@.wf(),
    ensures
        final(state)@.wf(),
        final(state)@.same_card_counts(old(state)@),
        r matches Err(_) ==> final(state)@ =~~= old(state)@,
        ({
            let p = acting_player as int;
            let slot = old(state)@.slot(p, position as int);
            if acting_player >= 2 {
                r matches Err(e) && e == (GameError::InvalidPlayer { player: acting_player })
            } else if position >= 4 {
                r matches Err(e) && e == (GameError::InvalidCardPosition { position, max: 3 })
            } else if !(card matches Card::Pokemon(pk) && pk.stage > 0) {
                r matches Err(e) && e is InvalidEvolution
            } else if slot is None {
                r matches Err(e) && e == (GameError::NoPokemonAtPosition {
                    player: acting_player,
                    position,
                })
            } else if (card->Pokemon_0.evolves_from matches Some(n)
                && n@ != slot->0.card.spec_name()) {
                r matches Err(e) && e is InvalidEvolution
            } else if first_card_index(old(state)@.hands[p], *card) < 0 {
                r matches Err(e) && e is CardNotInHand
            } else {
                r is Ok && crate::apply_action::spec_evolved(
                    old(state)@,
                    final(state)@,
                    p,
                    *card,
                    position,
                )
            }
        }),
{
    if acting_player >= 2 {
        return Err(GameError::InvalidPlayer { player: acting_player });
    }
    if position >= 4 {
        return Err(GameError::invalid_position(position, 3));
    }
    proof {
        assert(state@.in_play_pokemon.len() == 2);
        assert(state@.in_play_pokemon[acting_player as int].len() == 4);
    }
    let pokemon_card = match card {
        Card::Pokemon(p) => {
            if p.stage == 0 {
                return Err(
                    GameError::InvalidEvolution {
                        reason: String::from_str("Cannot evolve with a basic Pokemon"),
                    },
                );
            }
            p
        },
        Card::Trainer(_) => {
            return Err(
                GameError::InvalidEvolution {
                    reason: String::from_str("Cannot evolve with a trainer card"),
                },
            );
        },
    };
    let old_name = match &state.in_play_pokemon[acting_player][position] {
        Some(pc) => pc.get_name(),
        None => {
            return Err(GameError::no_pokemon(acting_player, position));
        },
    };
    match &pokemon_card.evolves_from {
        Some(from_name) => {
            if !crate::types::str_eq(from_name.as_str(), old_name.as_str()) {
                return Err(
                    GameError::InvalidEvolution {
                        reason: String::from_str("The card does not evolve from that Pokemon"),
                    },
                );
            }
        },
        None => {},
    }
    if !crate::state::first_card_index_exec(&state.hands[acting_player], card) {
        let name = card.get_name();
        return Err(GameError::card_not_in_hand(name.as_str(), acting_player));
    }
    crate::apply_action::apply_evolve(acting_player, state, card, position);
    Ok(())
}

/// The checked form of retreat: each rejected input is named, including an
/// energy shortfall against the current retreat cost.
pub fn apply_retreat_safe(
    acting_player: usize,
    state: &mut State,
    bench_idx: usize,
    is_free: bool,
) -> (r: GameResult<()>)
    requires
        old(state)@.wf(),
    ensures
        final(state)@.wf(),
        final(state)@.same_card_counts(old(state)@),
        r matches Err(_) ==> final(state)@ =~~= old(state)@,
        ({
            let p = acting_player as int;
            let bench = old(state)@.slot(p, bench_idx as int);
            let active = old(state)@.slot(p, 0);
            if acting_player >= 2 {
                r matches Err(e) && e == (GameError::InvalidPlayer { player: acting_player })
            } else if bench_idx == 0 || bench_idx >= 4 {
                r matches Err(e) && e is InvalidAction
            } else if bench is None {
                r matches Err(e) && e == (GameError::NoPokemonAtPosition {
                    player: acting_player,
                    position: bench_idx,
                })
            } else if !is_free && active is None {
                r matches Err(e) && e == (GameError::NoActivePokemon { player: acting_player })
            } else if !is_free && (active matches Some(apc) && apc.attached_energy@.len()
                < crate::apply_action::spec_retreat_cost_len(old(state)@, apc)) {
                r matches Err(e) && e is MissingEnergy
            } else {
                r is Ok && crate::apply_action::spec_retreated(
                    old(state)@,
                    final(state)@,
                    p,
                    bench_idx,
                    is_free,
                )
            }
        }),
{
    if acting_player >= 2 {
        return Err(GameError::InvalidPlayer { player: acting_player });
    }
    if bench_idx == 0 || bench_idx >= 4 {
        return Err(
            GameError::InvalidAction {
                action: String::from_str("Retreat"),
                reason: String::from_str("Can only retreat to bench positions 1-3"),
            },
        );
    }
    proof {
        assert(state@.in_play_pokemon.len() == 2);
        assert(state@.in_play_pokemon[acting_player as int].len() == 4);
    }
    if state.in_play_pokemon[acting_player][bench_idx].is_none() {
        return Err(GameError::no_pokemon(acting_player, bench_idx));
    }
    if !is_free {
        let cost_len = match &state.in_play_pokemon[acting_player][0] {
            Some(active) => {
                let cost = crate::hooks::get_retreat_cost(state, active);
                proof {
                    let base = active.card->Pokemon_0.retreat_cost@;
                    let discount = crate::hooks::spec_retreat_discount(
                        crate::state::spec_effect_views_at(state@, state@.turn_count),
                    );
                    assert(cost@ == if discount >= base.len() {
                        Seq::<crate::types::EnergyType>::empty()
                    } else {
                        base.take(base.len() - discount)
                    });
                    crate::hooks::lemma_retreat_discount_nonneg(
                        crate::state::spec_effect_views_at(state@, state@.turn_count),
                    );
                    if discount < base.len() {
                        assert(cost@.len() == base.len() - discount);
                    }
                    assert(cost@.len() as int == crate::apply_action::spec_retreat_cost_len(
                        state@,
                        *active,
                    ));
                }
                if active.attached_energy.len() < cost.len() {
                    let mut required: Vec<String> = Vec::new();
                    let mut i: usize = 0;
                    while i < cost.len()
                        invariant
                            i <= cost@.len(),
                        decreases cost@.len() - i,
                    {
                        required.push(cost[i].name());
                        i += 1;
                    }
                    let mut available: Vec<String> = Vec::new();
                    let mut j: usize = 0;
                    while j < active.attached_energy.len()
                        invariant
                            j <= active.attached_energy@.len(),
                        decreases active.attached_energy@.len() - j,
                    {
                        available.push(active.attached_energy[j].name());
                        j += 1;
                    }
                    return Err(GameError::MissingEnergy { required, available });
                }
                cost.len()
            },
            None => {
                return Err(GameError::no_active(acting_player));
            },
        };
        let _ = cost_len;
    }
    crate::apply_action::apply_retreat(acting_player, state, bench_idx, is_free);
    Ok(())
}

/// The checked form of healing: the target must exist.
pub fn apply_healing_safe(
    acting_player: usize,
    state: &mut State,
    position: usize,
    amount: u32,
) -> (r: GameResult<()>)
    requires
        old(state)@.wf(),
    ensures
        final(state)@.wf(),
        final(state)@.same_card_counts(old(state)@),
        r matches Err(_) ==> final(state)@ =~~= old(state)@,
        ({
            let p = acting_player as int;
            if acting_player >= 2 {
                r matches Err(e) && e == (GameError::InvalidPlayer { player: acting_player })
            } else if position >= 4 {
                r matches Err(e) && e == (GameError::InvalidCardPosition { position, max: 3 })
            } else if old(state)@.slot(p, position as int) is None {
                r matches Err(e) && e == (GameError::NoPokemonAtPosition {
                    player: acting_player,
                    position,
                })
            } else {
                r is Ok && crate::apply_action::spec_healed(
                    old(state)@,
                    final(state)@,
                    p,
                    position,
                    amount,
                )
            }
        }),
{
    if acting_player >= 2 {
        return Err(GameError::InvalidPlayer { player: acting_player });
    }
    if position >= 4 {
        return Err(GameError::invalid_position(position, 3));
    }
    proof {
        assert(state@.in_play_pokemon.len() == 2);
        assert(state@.in_play_pokemon[acting_player as int].len() == 4);
    }
    if state.in_play_pokemon[acting_player][position].is_none() {
        return Err(GameError::no_pokemon(acting_player, position));
    }
    crate::apply_action::apply_healing(acting_player, state, position, amount);
    Ok(())
}

} // verus!
