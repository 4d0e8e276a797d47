use deckgym::actions::{Action, SimpleAction};
use deckgym::apply_action::{apply_action, apply_evolve, forecast_action};
use deckgym::card_ids::CardId;
use deckgym::database::get_card_by_enum;
use deckgym::game::Game;
use deckgym::hooks::to_playable_card;
use deckgym::move_generation::generate_possible_actions;
use deckgym::players::{AttachAttackPlayer, EndTurnPlayer, Player};
use deckgym::state::State;
use deckgym::test_helpers::load_test_decks;
use deckgym::types::{Card, EnergyType};
use rand::rngs::StdRng;
use rand::SeedableRng;
use std::collections::hash_map::DefaultHasher;
use std::hash::{Hash, Hasher};
use deckgym::errors::GameError;

fn fresh_rng() -> StdRng {
    StdRng::seed_from_u64(7)
}

fn count_cards(state: &State, player: usize) -> usize {
    let mut total = state.hands[player].len()
        + state.decks[player].cards.len()
        + state.discard_piles[player].len();
    for slot in state.in_play_pokemon[player].iter() {
        if let Some(pc) = slot {
            total += 1 + pc.cards_behind.len();
        }
    }
    total
}

#[test]
fn card_conservation_across_a_full_game() {
    // Card conservation: every reachable state accounts for exactly the
    // starting deck sizes.
    let (deck_a, deck_b) = load_test_decks();
    let players: Vec<Box<dyn Player>> = vec![
        Box::new(AttachAttackPlayer { deck: deck_a }),
        Box::new(EndTurnPlayer { deck: deck_b }),
    ];
    let mut game = Game::new(players, 11);
    for _ in 0..500 {
        let state = game.get_state_clone();
        assert_eq!(count_cards(&state, 0), 20);
        assert_eq!(count_cards(&state, 1), 20);
        if state.is_game_over() {
            break;
        }
        game.play_tick();
    }
}

#[test]
fn hp_bounds_hold_across_a_full_game() {
    // Hit-point bounds: every fielded Pokemon keeps 0 < remaining <= total.
    let (deck_a, deck_b) = load_test_decks();
    let players: Vec<Box<dyn Player>> = vec![
        Box::new(AttachAttackPlayer { deck: deck_a.clone() }),
        Box::new(AttachAttackPlayer { deck: deck_b }),
    ];
    let mut game = Game::new(players, 23);
    for _ in 0..500 {
        let state = game.get_state_clone();
        for p in 0..2 {
            for slot in state.in_play_pokemon[p].iter() {
                if let Some(pc) = slot {
                    assert!(pc.remaining_hp > 0);
                    assert!(pc.remaining_hp <= pc.total_hp);
                }
            }
        }
        if state.is_game_over() {
            break;
        }
        game.play_tick();
    }
}

#[test]
fn supporter_flag_clears_on_turn_change() {
    // No new turn begins with the Supporter already spent.
    let (deck_a, deck_b) = load_test_decks();
    let mut state = State::new(&deck_a, &deck_b);
    state.turn_count = 3;
    state.has_played_support = true;
    state.has_retreated = true;
    let mut rng = fresh_rng();
    state.advance_turn(&mut rng);
    assert!(!state.has_played_support);
    assert!(!state.has_retreated);
}

#[test]
fn stack_decisions_resolve_before_fresh_generation() {
    // With frames outstanding, the generator serves the top frame; a
    // fresh consultation happens only on an empty stack.
    let (deck_a, deck_b) = load_test_decks();
    let mut state = State::new(&deck_a, &deck_b);
    state.queue_draw_action(1);
    let (actor, actions) = generate_possible_actions(&state);
    assert_eq!(actor, 1);
    assert_eq!(actions.len(), 1);
    assert!(actions[0].is_stack);
    assert!(matches!(actions[0].action, SimpleAction::DrawCard));
    state.move_generation_stack.pop();
    let (actor, actions) = generate_possible_actions(&state);
    assert_eq!(actor, state.current_player);
    assert!(actions.iter().all(|a| !a.is_stack));
    assert!(actions.iter().any(|a| matches!(a.action, SimpleAction::EndTurn)));
}

#[test]
fn determinism_for_fixed_seed_and_agents() {
    // One seed and deterministic agents give identical outcome and state.
    let run = |seed: u64| {
        let (deck_a, deck_b) = load_test_decks();
        let players: Vec<Box<dyn Player>> = vec![
            Box::new(AttachAttackPlayer { deck: deck_a }),
            Box::new(EndTurnPlayer { deck: deck_b }),
        ];
        let mut game = Game::new(players, seed);
        let outcome = game.play();
        (outcome, game.get_state_clone())
    };
    let (o1, s1) = run(42);
    let (o2, s2) = run(42);
    assert_eq!(o1, o2);
    assert_eq!(s1, s2);
    let mut h1 = DefaultHasher::new();
    s1.hash(&mut h1);
    let mut h2 = DefaultHasher::new();
    s2.hash(&mut h2);
    assert_eq!(h1.finish(), h2.finish());
}

#[test]
fn turn_limit_ends_the_game() {
    // play() ends with the turn counter at most one hundred.
    let (deck_a, deck_b) = load_test_decks();
    let players: Vec<Box<dyn Player>> = vec![
        Box::new(EndTurnPlayer { deck: deck_a }),
        Box::new(EndTurnPlayer { deck: deck_b }),
    ];
    let mut game = Game::new(players, 5);
    let outcome = game.play();
    let state = game.get_state_clone();
    assert!(state.turn_count <= 100);
    assert!(state.is_game_over());
    assert!(outcome.is_some());
}

#[test]
fn forecast_probabilities_sum_to_one() {
    // Sixty-fourths summing to exactly sixty-four, one weight per outcome.
    let (deck_a, deck_b) = load_test_decks();
    let mut state = State::new(&deck_a, &deck_b);
    let misty = match get_card_by_enum(CardId::A1220Misty) {
        Card::Trainer(t) => t,
        _ => panic!("expected trainer"),
    };
    let squirtle = get_card_by_enum(CardId::A1053Squirtle);
    state.in_play_pokemon[0][0] = Some(to_playable_card(&squirtle, false));
    let mut asleep_active = to_playable_card(&squirtle, false);
    asleep_active.asleep = true;
    state.in_play_pokemon[1][0] = Some(asleep_active);
    let samples = vec![
        Action { actor: 0, action: SimpleAction::DrawCard, is_stack: false },
        Action { actor: 0, action: SimpleAction::Play { trainer_card: misty }, is_stack: false },
        Action { actor: 0, action: SimpleAction::EndTurn, is_stack: false },
        Action { actor: 0, action: SimpleAction::Heal { in_play_idx: 0, amount: 10 }, is_stack: false },
    ];
    for action in samples {
        let (probs, outcomes) = forecast_action(&state, &action);
        assert_eq!(probs.len(), outcomes.len());
        assert!(probs.len() >= 1);
        let total: u32 = probs.iter().sum();
        assert_eq!(total, 64);
        assert!(probs.iter().all(|w| *w > 0));
    }
}

#[test]
fn hidden_information_forecasts_are_single_outcome() {
    // A draw and the hidden-information trainers forecast one outcome.
    let (deck_a, deck_b) = load_test_decks();
    let state = State::new(&deck_a, &deck_b);
    let hidden_ids = vec![
        CardId::PA007ProfessorsResearch,
        CardId::PA005PokeBall,
        CardId::PA006RedCard,
        CardId::A1a065MythicalSlab,
    ];
    let draw = Action { actor: 0, action: SimpleAction::DrawCard, is_stack: false };
    let (probs, outcomes) = forecast_action(&state, &draw);
    assert_eq!(probs.len(), 1);
    assert_eq!(outcomes.len(), 1);
    for id in hidden_ids {
        let trainer = match get_card_by_enum(id) {
            Card::Trainer(t) => t,
            _ => panic!("expected trainer"),
        };
        let action =
            Action { actor: 0, action: SimpleAction::Play { trainer_card: trainer }, is_stack: false };
        let (probs, outcomes) = forecast_action(&state, &action);
        assert_eq!(probs.len(), 1);
        assert_eq!(outcomes.len(), 1);
    }
}

#[test]
fn equal_states_hash_equal_and_clone_equals() {
    // a == b implies hash(a) == hash(b), and clone(s) == s.
    let (deck_a, deck_b) = load_test_decks();
    let a = State::new(&deck_a, &deck_b);
    let b = State::new(&deck_a, &deck_b);
    assert_eq!(a, b);
    let mut ha = DefaultHasher::new();
    a.hash(&mut ha);
    let mut hb = DefaultHasher::new();
    b.hash(&mut hb);
    assert_eq!(ha.finish(), hb.finish());
    let c = a.clone();
    assert_eq!(c, a);
}

#[test]
fn heal_caps_at_full_hp() {
    // A 70-HP ally with 10 damage taken ends on exactly full hit points
    // after the heal-everything ability.
    let (deck_a, deck_b) = load_test_decks();
    let mut state = State::new(&deck_a, &deck_b);
    let butterfree = get_card_by_enum(CardId::A1007Butterfree);
    let mut bf = to_playable_card(&butterfree, false);
    bf.ability_used = false;
    state.in_play_pokemon[0][0] = Some(bf);
    let bulbasaur = get_card_by_enum(CardId::A1001Bulbasaur);
    let mut ally = to_playable_card(&bulbasaur, false);
    assert_eq!(ally.total_hp, 70);
    ally.apply_damage(10);
    state.in_play_pokemon[0][1] = Some(ally);
    deckgym::apply_action::apply_abilities_action(0, &mut state, 0);
    let healed = state.in_play_pokemon[0][1].as_ref().unwrap();
    assert_eq!(healed.total_hp - healed.remaining_hp, 0);
    assert_eq!(healed.remaining_hp, 70);
}

#[test]
fn retreat_discards_energy_and_clears_status() {
    let (deck_a, deck_b) = load_test_decks();
    let mut state = State::new(&deck_a, &deck_b);
    let mankey = get_card_by_enum(CardId::A1141Mankey);
    let primeape = get_card_by_enum(CardId::A1142Primeape);
    let mut active = to_playable_card(&mankey, false);
    active.attached_energy = vec![EnergyType::Fighting, EnergyType::Fighting];
    active.poisoned = true;
    state.in_play_pokemon[0][0] = Some(active);
    state.in_play_pokemon[0][1] = Some(to_playable_card(&primeape, false));
    let mut rng = fresh_rng();
    let action = Action { actor: 0, action: SimpleAction::Retreat(1), is_stack: false };
    apply_action(&mut rng, &mut state, &action);
    assert_eq!(state.in_play_pokemon[0][0].as_ref().unwrap().card, primeape);
    let benched = state.in_play_pokemon[0][1].as_ref().unwrap();
    assert_eq!(benched.card, mankey);
    // The printed retreat cost is paid out of the attached energy.
    assert!(benched.attached_energy.len() < 2);
    assert!(!benched.poisoned);
    assert!(state.has_retreated);
}

#[test]
fn evolution_preserves_damage_and_energy() {
    let (deck_a, deck_b) = load_test_decks();
    let mut state = State::new(&deck_a, &deck_b);
    let mankey = get_card_by_enum(CardId::A1141Mankey);
    let primeape = get_card_by_enum(CardId::A1142Primeape);
    let mut active = to_playable_card(&mankey, false);
    assert_eq!(active.total_hp, 50);
    active.remaining_hp = 20;
    active.attached_energy = vec![EnergyType::Colorless];
    active.poisoned = true;
    state.in_play_pokemon[0][0] = Some(active);
    state.hands[0] = vec![primeape.clone()];
    apply_evolve(0, &mut state, &primeape, 0);
    let evolved = state.in_play_pokemon[0][0].as_ref().unwrap();
    assert_eq!(evolved.card, primeape);
    assert_eq!(evolved.total_hp, 90);
    assert_eq!(evolved.remaining_hp, 60);
    assert_eq!(evolved.attached_energy, vec![EnergyType::Colorless]);
    assert_eq!(evolved.cards_behind, vec![mankey]);
    assert!(!evolved.ability_used);
    assert!(evolved.played_this_turn);
    assert!(!evolved.poisoned);
    assert_eq!(state.hands[0].len(), 0);
}

#[test]
fn evolution_works_on_a_bench_slot() {
    let (deck_a, deck_b) = load_test_decks();
    let mut state = State::new(&deck_a, &deck_b);
    let mankey = get_card_by_enum(CardId::A1141Mankey);
    let primeape = get_card_by_enum(CardId::A1142Primeape);
    let mut bench = to_playable_card(&mankey, false);
    bench.remaining_hp = 50;
    bench.attached_energy = vec![
        EnergyType::Colorless,
        EnergyType::Colorless,
        EnergyType::Colorless,
    ];
    state.in_play_pokemon[0][2] = Some(bench);
    state.hands[0] = vec![primeape.clone()];
    apply_evolve(0, &mut state, &primeape, 2);
    let evolved = state.in_play_pokemon[0][2].as_ref().unwrap();
    assert_eq!(evolved.card, primeape);
    assert_eq!(evolved.total_hp, 90);
    assert_eq!(evolved.remaining_hp, 90);
    assert_eq!(
        evolved.attached_energy,
        vec![EnergyType::Colorless, EnergyType::Colorless, EnergyType::Colorless]
    );
    assert_eq!(evolved.cards_behind, vec![mankey]);
    assert_eq!(state.hands[0].len(), 0);
}

#[test]
fn cannot_attack_on_turn_one() {
    let (deck_a, deck_b) = load_test_decks();
    let mut state = State::new(&deck_a, &deck_b);
    state.turn_count = 1;
    let bulbasaur = get_card_by_enum(CardId::A1001Bulbasaur);
    let mut active = to_playable_card(&bulbasaur, false);
    active.attached_energy = vec![EnergyType::Grass, EnergyType::Grass];
    state.in_play_pokemon[0][0] = Some(active);
    let (_, actions) = generate_possible_actions(&state);
    assert!(actions.iter().all(|a| !matches!(a.action, SimpleAction::Attack(_))));
    state.turn_count = 2;
    let (_, actions) = generate_possible_actions(&state);
    assert!(actions.iter().any(|a| matches!(a.action, SimpleAction::Attack(0))));
}

#[test]
fn supporter_lockout_and_release() {
    // A Supporter in hand is withheld while the turn's Supporter is
    // spent, and offered again once the turn ends.
    let (deck_a, deck_b) = load_test_decks();
    let mut state = State::new(&deck_a, &deck_b);
    let giovanni = get_card_by_enum(CardId::A1223Giovanni);
    state.hands[0] = vec![giovanni.clone()];
    state.current_player = 0;
    state.turn_count = 3;
    state.has_played_support = true;
    let (_, actions) = generate_possible_actions(&state);
    assert!(actions.iter().all(|a| !matches!(&a.action, SimpleAction::Play { .. })));
    let mut rng = fresh_rng();
    let end = Action { actor: 0, action: SimpleAction::EndTurn, is_stack: false };
    apply_action(&mut rng, &mut state, &end);
    assert!(!state.has_played_support);
    state.current_player = 0;
    state.move_generation_stack.clear();
    let (_, actions) = generate_possible_actions(&state);
    assert!(actions.iter().any(|a| matches!(&a.action, SimpleAction::Play { .. })));
}

#[test]
fn knockout_awards_points_and_spawns_replacement() {
    // The knockout empties the slot, scores a point, and hands the
    // fallen side a replacement choice per benched Pokemon.
    let (deck_a, deck_b) = load_test_decks();
    let mut state = State::new(&deck_a, &deck_b);
    let mankey = get_card_by_enum(CardId::A1141Mankey);
    let pidgey = get_card_by_enum(CardId::A1186Pidgey);
    state.in_play_pokemon[0][0] = Some(to_playable_card(&mankey, false));
    let mut victim = to_playable_card(&pidgey, false);
    victim.remaining_hp = 10;
    state.in_play_pokemon[1][0] = Some(victim);
    state.in_play_pokemon[1][1] = Some(to_playable_card(&pidgey, false));
    let mut rng = fresh_rng();
    let action = Action {
        actor: 0,
        action: SimpleAction::ApplyDamage { targets: vec![(30, 0)] },
        is_stack: false,
    };
    apply_action(&mut rng, &mut state, &action);
    assert_eq!(state.points[0], 1);
    assert!(state.in_play_pokemon[1][0].is_none());
    assert_eq!(state.move_generation_stack.len(), 1);
    let frame = &state.move_generation_stack[0];
    assert_eq!(frame.0, 1);
    assert_eq!(frame.1.len(), 1);
    assert!(matches!(frame.1[0], SimpleAction::Activate { in_play_idx: 1 }));
    // The knocked-out card lands in its owner's discard pile.
    assert_eq!(state.discard_piles[1].len(), 1);
}

#[test]
fn knockout_of_ex_awards_two_points() {
    let (deck_a, deck_b) = load_test_decks();
    let mut state = State::new(&deck_a, &deck_b);
    let mankey = get_card_by_enum(CardId::A1141Mankey);
    let arceus = get_card_by_enum(CardId::A2a071ArceusEx);
    state.in_play_pokemon[0][0] = Some(to_playable_card(&mankey, false));
    let mut victim = to_playable_card(&arceus, false);
    victim.remaining_hp = 10;
    state.in_play_pokemon[1][0] = Some(victim);
    state.in_play_pokemon[1][1] = Some(to_playable_card(&mankey, false));
    let mut rng = fresh_rng();
    let action = Action {
        actor: 0,
        action: SimpleAction::ApplyDamage { targets: vec![(30, 0)] },
        is_stack: false,
    };
    apply_action(&mut rng, &mut state, &action);
    assert_eq!(state.points[0], 2);
}

#[test]
fn knockout_with_empty_bench_ends_the_game() {
    let (deck_a, deck_b) = load_test_decks();
    let mut state = State::new(&deck_a, &deck_b);
    let mankey = get_card_by_enum(CardId::A1141Mankey);
    let pidgey = get_card_by_enum(CardId::A1186Pidgey);
    state.in_play_pokemon[0][0] = Some(to_playable_card(&mankey, false));
    let mut victim = to_playable_card(&pidgey, false);
    victim.remaining_hp = 10;
    state.in_play_pokemon[1][0] = Some(victim);
    let mut rng = fresh_rng();
    let action = Action {
        actor: 0,
        action: SimpleAction::ApplyDamage { targets: vec![(30, 0)] },
        is_stack: false,
    };
    apply_action(&mut rng, &mut state, &action);
    assert!(state.is_game_over());
    assert_eq!(state.winner, Some(deckgym::state::GameOutcome::Win(0)));
}

#[test]
fn misty_forecast_matches_folded_distribution() {
    // The coin chain is truncated at five heads, with the leftover mass
    // folded into the last bucket: 32, 16, 8, 4, 2, 2 sixty-fourths.
    let (probs, outcomes) = deckgym::trainer_actions::misty_outcomes_safe();
    assert_eq!(probs, vec![32, 16, 8, 4, 2, 2]);
    assert_eq!(outcomes.len(), 6);
    let total: u32 = probs.iter().sum();
    assert_eq!(total, 64);
}

#[test]
fn weakness_doubles_attack_damage() {
    // Bulbasaur (weak to Fire) takes double from a Fire attacker's Ember.
    let (deck_a, deck_b) = load_test_decks();
    let mut state = State::new(&deck_a, &deck_b);
    state.turn_count = 2;
    state.current_player = 0;
    let charmander = get_card_by_enum(CardId::A1033Charmander);
    let mut attacker = to_playable_card(&charmander, false);
    attacker.attached_energy = vec![EnergyType::Fire];
    state.in_play_pokemon[0][0] = Some(attacker);
    let bulbasaur = get_card_by_enum(CardId::A1001Bulbasaur);
    state.in_play_pokemon[1][0] = Some(to_playable_card(&bulbasaur, false));
    let mut rng = fresh_rng();
    let action = Action { actor: 0, action: SimpleAction::Attack(0), is_stack: false };
    apply_action(&mut rng, &mut state, &action);
    // Ember does 30; doubled by weakness it takes 60 of Bulbasaur's 70.
    let defender = state.in_play_pokemon[1][0].as_ref().unwrap();
    assert_eq!(defender.remaining_hp, 10);
    // Ember's own effect discarded the attacker's Fire energy.
    let attacker = state.in_play_pokemon[0][0].as_ref().unwrap();
    assert_eq!(attacker.attached_energy.len(), 0);
}

#[test]
fn giant_cape_grants_twenty_hit_points() {
    let (deck_a, deck_b) = load_test_decks();
    let mut state = State::new(&deck_a, &deck_b);
    let pidgey = get_card_by_enum(CardId::A1186Pidgey);
    state.in_play_pokemon[0][0] = Some(to_playable_card(&pidgey, false));
    let mut rng = fresh_rng();
    let action = Action {
        actor: 0,
        action: SimpleAction::AttachTool {
            in_play_idx: 0,
            tool_id: deckgym::tool_ids::ToolId::A2147GiantCape,
        },
        is_stack: false,
    };
    apply_action(&mut rng, &mut state, &action);
    let pc = state.in_play_pokemon[0][0].as_ref().unwrap();
    assert_eq!(pc.total_hp, 80);
    assert_eq!(pc.remaining_hp, 80);
    assert_eq!(pc.attached_tool, Some(deckgym::tool_ids::ToolId::A2147GiantCape));
}

#[test]
fn red_card_shuffles_hand_and_queues_three_draws() {
    let (deck_a, deck_b) = load_test_decks();
    let mut state = State::new(&deck_a, &deck_b);
    for _ in 0..4 {
        state.maybe_draw_card(1);
    }
    assert_eq!(state.hands[1].len(), 4);
    let red_card = match get_card_by_enum(CardId::PA006RedCard) {
        Card::Trainer(t) => t,
        _ => panic!("expected trainer"),
    };
    state.hands[0] = vec![Card::Trainer(red_card.clone())];
    let mut rng = fresh_rng();
    let action =
        Action { actor: 0, action: SimpleAction::Play { trainer_card: red_card }, is_stack: false };
    apply_action(&mut rng, &mut state, &action);
    assert_eq!(state.hands[1].len(), 0);
    assert_eq!(state.decks[1].cards.len(), 20);
    assert_eq!(state.move_generation_stack.len(), 3);
    // The played Red Card itself went to the discard pile.
    assert_eq!(state.discard_piles[0].len(), 1);
}

#[test]
fn pokeball_moves_one_basic_from_deck_to_hand() {
    let (deck_a, deck_b) = load_test_decks();
    let mut state = State::new(&deck_a, &deck_b);
    let pokeball = match get_card_by_enum(CardId::PA005PokeBall) {
        Card::Trainer(t) => t,
        _ => panic!("expected trainer"),
    };
    state.hands[0] = vec![Card::Trainer(pokeball.clone())];
    let deck_before = state.decks[0].cards.len();
    let mut rng = fresh_rng();
    let action =
        Action { actor: 0, action: SimpleAction::Play { trainer_card: pokeball }, is_stack: false };
    apply_action(&mut rng, &mut state, &action);
    assert_eq!(state.hands[0].len(), 1);
    assert!(state.hands[0][0].is_basic());
    assert_eq!(state.decks[0].cards.len(), deck_before - 1);
}

#[test]
fn error_messages_name_their_context() {
    let e = GameError::EmptyDeck { player: 1 };
    assert_eq!(e.message(), "Player 2's deck is empty");
    let e = GameError::CardNotFound { card_id: 907 };
    assert_eq!(e.message(), "Card with ID 907 not found");
    let e = GameError::GameAlreadyOver;
    assert_eq!(e.message(), "Game is already over");
}

#[test]
fn safe_layer_reports_the_error_taxonomy() {
    let (deck_a, deck_b) = load_test_decks();
    let mut state = State::new(&deck_a, &deck_b);
    assert!(matches!(
        state.get_remaining_hp_safe(5, 0),
        Err(GameError::InvalidPlayer { player: 5 })
    ));
    assert!(matches!(
        state.get_remaining_hp_safe(0, 9),
        Err(GameError::InvalidCardPosition { position: 9, max: 3 })
    ));
    let mankey = get_card_by_enum(CardId::A1141Mankey);
    let r = deckgym::safe_state::apply_evolve_safe(0, &mut state, &mankey, 0);
    assert!(matches!(r, Err(GameError::InvalidEvolution { .. })));
}

#[test]
fn initialize_deals_hands_and_keeps_every_card() {
    // The shuffle rearranges but neither loses nor duplicates cards, and an
    // opening hand from a deck with Basics holds a Basic.
    let (deck_a, deck_b) = load_test_decks();
    let mut rng = StdRng::seed_from_u64(99);
    let state = State::initialize(&deck_a, &deck_b, &mut rng);
    assert_eq!(state.hands[0].len(), 5);
    assert_eq!(state.hands[1].len(), 5);
    assert_eq!(state.decks[0].cards.len(), 15);
    assert_eq!(state.decks[1].cards.len(), 15);
    assert!(state.hands[0].iter().any(|c| c.is_basic()));
    assert!(state.hands[1].iter().any(|c| c.is_basic()));
    let mut before: Vec<String> = deck_a.cards.iter().map(|c| c.get_id()).collect();
    let mut after: Vec<String> = state
        .hands[0]
        .iter()
        .chain(state.decks[0].cards.iter())
        .map(|c| c.get_id())
        .collect();
    before.sort();
    after.sort();
    assert_eq!(before, after);
}

#[test]
fn retreat_without_energy_reports_missing_energy() {
    let (deck_a, deck_b) = load_test_decks();
    let mut state = State::new(&deck_a, &deck_b);
    let mankey = get_card_by_enum(CardId::A1141Mankey);
    let primeape = get_card_by_enum(CardId::A1142Primeape);
    state.in_play_pokemon[0][0] = Some(to_playable_card(&mankey, false));
    state.in_play_pokemon[0][1] = Some(to_playable_card(&primeape, false));
    let r = deckgym::safe_state::apply_retreat_safe(0, &mut state, 1, false);
    assert!(matches!(r, Err(GameError::MissingEnergy { .. })));
    // The failed retreat left the board untouched.
    assert_eq!(state.in_play_pokemon[0][0].as_ref().unwrap().card, mankey);
    assert!(!state.has_retreated);
}

#[test]
fn finished_game_reports_already_over() {
    let (deck_a, deck_b) = load_test_decks();
    let mut state = State::new(&deck_a, &deck_b);
    state.turn_count = 100;
    assert!(matches!(state.validate_game_state(), Err(GameError::GameAlreadyOver)));
}

#[test]
fn energy_generation_draws_from_the_declared_pool() {
    let (deck_a, deck_b) = load_test_decks();
    let mut state = State::new(&deck_a, &deck_b);
    state.current_player = 1;
    let mut rng = fresh_rng();
    state.generate_energy(&mut rng);
    assert_eq!(state.current_energy, Some(EnergyType::Fighting));
    let mut empty_deck = deck_a.clone();
    empty_deck.energy_types.clear();
    let mut state = State::new(&empty_deck, &deck_b);
    let mut rng = fresh_rng();
    assert!(state.generate_energy_safe(&mut rng).is_err());
}

#[test]
fn sabrina_pushes_a_choice_for_the_opponent() {
    let (deck_a, deck_b) = load_test_decks();
    let mut state = State::new(&deck_a, &deck_b);
    let sabrina = match get_card_by_enum(CardId::A1225Sabrina) {
        Card::Trainer(t) => t,
        _ => panic!("expected trainer"),
    };
    let pidgey = get_card_by_enum(CardId::A1186Pidgey);
    state.in_play_pokemon[1][0] = Some(to_playable_card(&pidgey, false));
    state.in_play_pokemon[1][2] = Some(to_playable_card(&pidgey, false));
    state.hands[0] = vec![Card::Trainer(sabrina.clone())];
    let mut rng = fresh_rng();
    let action =
        Action { actor: 0, action: SimpleAction::Play { trainer_card: sabrina }, is_stack: false };
    apply_action(&mut rng, &mut state, &action);
    assert_eq!(state.move_generation_stack.len(), 1);
    let frame = &state.move_generation_stack[0];
    assert_eq!(frame.0, 1);
    assert_eq!(frame.1.len(), 1);
    assert!(matches!(frame.1[0], SimpleAction::Activate { in_play_idx: 2 }));
    assert!(state.has_played_support);
}

#[test]
fn poison_damage_applies_between_turns() {
    let (deck_a, deck_b) = load_test_decks();
    let mut state = State::new(&deck_a, &deck_b);
    state.turn_count = 3;
    let pidgey = get_card_by_enum(CardId::A1186Pidgey);
    let mut active = to_playable_card(&pidgey, false);
    active.poisoned = true;
    state.in_play_pokemon[0][0] = Some(active);
    state.in_play_pokemon[1][0] = Some(to_playable_card(&pidgey, false));
    let mut rng = fresh_rng();
    let end = Action { actor: 0, action: SimpleAction::EndTurn, is_stack: false };
    apply_action(&mut rng, &mut state, &end);
    let poisoned = state.in_play_pokemon[0][0].as_ref().unwrap();
    assert_eq!(poisoned.remaining_hp, 50);
    assert_eq!(state.turn_count, 4);
    assert_eq!(state.current_player, 1);
}
