use deckgym::actions::SimpleAction;
use deckgym::hooks::to_playable_card;
use deckgym::state::{GameOutcome, State};
use deckgym::test_helpers::load_test_decks;
use deckgym::types::{Card, EnergyType, PokemonCard, TrainerCard, TrainerType};
use rand::rngs::StdRng;
use rand::SeedableRng;

fn plain_pokemon(id: &str, name: &str, energy: EnergyType) -> Card {
    Card::Pokemon(PokemonCard {
        id: id.to_string(),
        name: name.to_string(),
        stage: 0,
        evolves_from: None,
        hp: 60,
        energy_type: energy,
        ability: None,
        attacks: vec![],
        weakness: None,
        retreat_cost: vec![],
        rarity: "Common".to_string(),
        booster_pack: "Base".to_string(),
    })
}

#[test]
fn test_draw_transfers_to_hand() {
    let (deck_a, deck_b) = load_test_decks();
    let mut state = State::new(&deck_a, &deck_b);
    assert_eq!(state.decks[0].cards.len(), 20);
    assert_eq!(state.hands[0].len(), 0);
    state.maybe_draw_card(0);
    assert_eq!(state.decks[0].cards.len(), 19);
    assert_eq!(state.hands[0].len(), 1);
}

#[test]
fn test_draw_from_empty_deck() {
    let (deck_a, deck_b) = load_test_decks();
    let mut state = State::new(&deck_a, &deck_b);
    state.decks[0].cards.clear();
    state.maybe_draw_card(0);
    assert_eq!(state.hands[0].len(), 0);
}

#[test]
fn test_remove_card_from_hand_success() {
    let (deck_a, deck_b) = load_test_decks();
    let mut state = State::new(&deck_a, &deck_b);
    state.maybe_draw_card(0);
    let card = state.hands[0][0].clone();
    state.remove_card_from_hand(0, &card);
    assert_eq!(state.hands[0].len(), 0);
}

#[test]
fn test_discard_card_from_hand() {
    let (deck_a, deck_b) = load_test_decks();
    let mut state = State::new(&deck_a, &deck_b);
    state.maybe_draw_card(0);
    let card = state.hands[0][0].clone();
    state.discard_card_from_hand(0, &card);
    assert_eq!(state.hands[0].len(), 0);
    assert_eq!(state.discard_piles[0].len(), 1);
    assert_eq!(state.discard_piles[0][0], card);
}

#[test]
fn test_generate_energy_single_type() {
    let (mut deck_a, deck_b) = load_test_decks();
    deck_a.energy_types = vec![EnergyType::Grass];
    let mut state = State::new(&deck_a, &deck_b);
    let mut rng = StdRng::seed_from_u64(3);
    state.generate_energy(&mut rng);
    assert_eq!(state.current_energy, Some(EnergyType::Grass));
}

#[test]
fn test_reset_turn_states() {
    let (deck_a, deck_b) = load_test_decks();
    let mut state = State::new(&deck_a, &deck_b);
    state.has_played_support = true;
    state.has_retreated = true;
    let pokemon_card = plain_pokemon("test1", "Test Pokemon", EnergyType::Grass);
    let mut played = to_playable_card(&pokemon_card, true);
    played.played_this_turn = true;
    played.ability_used = true;
    state.in_play_pokemon[0][0] = Some(played);
    state.reset_turn_states();
    assert!(!state.has_played_support);
    assert!(!state.has_retreated);
    assert!(!state.in_play_pokemon[0][0].as_ref().unwrap().played_this_turn);
    assert!(!state.in_play_pokemon[0][0].as_ref().unwrap().ability_used);
}

#[test]
fn test_turn_effects() {
    let (deck_a, deck_b) = load_test_decks();
    let mut state = State::new(&deck_a, &deck_b);
    let effect_card = Card::Trainer(TrainerCard {
        id: "test1".to_string(),
        numeric_id: 1,
        name: "Test Effect".to_string(),
        trainer_card_type: TrainerType::Item,
        effect: "Test effect description".to_string(),
        rarity: "Common".to_string(),
        booster_pack: "Base".to_string(),
    });
    state.add_turn_effect(effect_card.clone(), 2);
    let effects = state.get_current_turn_effects();
    assert_eq!(effects.len(), 1);
    assert_eq!(effects[0], effect_card);
    state.turn_count = 1;
    let effects = state.get_current_turn_effects();
    assert_eq!(effects.len(), 1);
    state.turn_count = 2;
    let effects = state.get_current_turn_effects();
    assert_eq!(effects.len(), 1);
    state.turn_count = 3;
    let effects = state.get_current_turn_effects();
    assert_eq!(effects.len(), 0);
}

#[test]
fn test_advance_turn() {
    let (deck_a, deck_b) = load_test_decks();
    let mut state = State::new(&deck_a, &deck_b);
    state.current_player = 0;
    state.turn_count = 1;
    state.has_played_support = true;
    state.has_retreated = true;
    let mut rng = StdRng::seed_from_u64(3);
    state.advance_turn(&mut rng);
    assert_eq!(state.current_player, 1);
    assert_eq!(state.turn_count, 2);
    assert!(!state.has_played_support);
    assert!(!state.has_retreated);
    assert_eq!(state.move_generation_stack.len(), 1);
    assert_eq!(state.move_generation_stack[0].0, 1);
    assert!(state.current_energy.is_some());
}

#[test]
fn test_enumerate_in_play_pokemon() {
    let (deck_a, deck_b) = load_test_decks();
    let mut state = State::new(&deck_a, &deck_b);
    let pokemon_card = plain_pokemon("test1", "Test Pokemon", EnergyType::Grass);
    state.in_play_pokemon[0][0] = Some(to_playable_card(&pokemon_card, true));
    state.in_play_pokemon[0][2] = Some(to_playable_card(&pokemon_card, true));
    let pokemon_list = state.enumerate_in_play_pokemon(0);
    assert_eq!(pokemon_list.len(), 2);
    assert_eq!(pokemon_list[0].0, 0);
    assert_eq!(pokemon_list[1].0, 2);
}

#[test]
fn test_enumerate_bench_pokemon() {
    let (deck_a, deck_b) = load_test_decks();
    let mut state = State::new(&deck_a, &deck_b);
    let pokemon_card = plain_pokemon("test1", "Test Pokemon", EnergyType::Grass);
    state.in_play_pokemon[0][0] = Some(to_playable_card(&pokemon_card, true));
    state.in_play_pokemon[0][1] = Some(to_playable_card(&pokemon_card, true));
    state.in_play_pokemon[0][2] = Some(to_playable_card(&pokemon_card, true));
    let bench_list = state.enumerate_bench_pokemon(0);
    assert_eq!(bench_list.len(), 2);
    assert_eq!(bench_list[0].0, 1);
    assert_eq!(bench_list[1].0, 2);
}

#[test]
fn test_num_in_play_of_type() {
    let (deck_a, deck_b) = load_test_decks();
    let mut state = State::new(&deck_a, &deck_b);
    let grass = plain_pokemon("grass1", "Grass Pokemon", EnergyType::Grass);
    let fire = plain_pokemon("fire1", "Fire Pokemon", EnergyType::Fire);
    state.in_play_pokemon[0][0] = Some(to_playable_card(&grass, true));
    state.in_play_pokemon[0][1] = Some(to_playable_card(&grass, true));
    state.in_play_pokemon[0][2] = Some(to_playable_card(&fire, true));
    assert_eq!(state.num_in_play_of_type(0, EnergyType::Grass), 2);
    assert_eq!(state.num_in_play_of_type(0, EnergyType::Fire), 1);
    assert_eq!(state.num_in_play_of_type(0, EnergyType::Water), 0);
}

#[test]
fn test_is_game_over() {
    let (deck_a, deck_b) = load_test_decks();
    let mut state = State::new(&deck_a, &deck_b);
    assert!(!state.is_game_over());
    state.winner = Some(GameOutcome::Win(0));
    assert!(state.is_game_over());
    state.winner = None;
    state.turn_count = 100;
    assert!(state.is_game_over());
}

#[test]
fn test_queue_draw_action() {
    let (deck_a, deck_b) = load_test_decks();
    let mut state = State::new(&deck_a, &deck_b);
    assert_eq!(state.move_generation_stack.len(), 0);
    state.queue_draw_action(0);
    assert_eq!(state.move_generation_stack.len(), 1);
    assert_eq!(state.move_generation_stack[0].0, 0);
    assert_eq!(state.move_generation_stack[0].1.len(), 1);
    match &state.move_generation_stack[0].1[0] {
        SimpleAction::DrawCard => {}
        _ => panic!("Expected DrawCard action"),
    }
}

#[test]
fn test_safe_get_remaining_hp() {
    let (deck_a, deck_b) = load_test_decks();
    let state = State::new(&deck_a, &deck_b);
    assert!(state.get_remaining_hp_safe(0, 0).is_err());
    assert!(state.get_remaining_hp_safe(2, 0).is_err());
    assert!(state.get_remaining_hp_safe(0, 4).is_err());
}

#[test]
fn test_safe_remove_card() {
    let (deck_a, deck_b) = load_test_decks();
    let mut state = State::new(&deck_a, &deck_b);
    let fake_card = Card::Trainer(TrainerCard {
        id: "fake1".to_string(),
        numeric_id: 0,
        name: "Fake Card".to_string(),
        trainer_card_type: TrainerType::Item,
        effect: "Test effect".to_string(),
        rarity: "Common".to_string(),
        booster_pack: "Base".to_string(),
    });
    assert!(state.remove_card_from_hand_safe(0, &fake_card).is_err());
    assert!(state.remove_card_from_hand_safe(2, &fake_card).is_err());
}
