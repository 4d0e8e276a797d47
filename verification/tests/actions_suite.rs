use deckgym::actions::{Action, SimpleAction};
use deckgym::apply_action::{apply_abilities_action, forecast_action, Outcome};
use deckgym::card_ids::CardId;
use deckgym::database::get_card_by_enum;
use deckgym::hooks::to_playable_card;
use deckgym::state::State;
use deckgym::test_helpers::load_test_decks;
use deckgym::tool_ids::ToolId;
use deckgym::trainer_actions::forecast_trainer_action_safe;
use deckgym::types::{Card, EnergyType, TrainerCard, TrainerType};

#[test]
fn test_butterfree_ability_heals_all_pokemon() {
    let (deck_a, deck_b) = load_test_decks();
    let mut state = State::new(&deck_a, &deck_b);
    let card = get_card_by_enum(CardId::A1007Butterfree);
    let mut butterfree = to_playable_card(&card, true);
    butterfree.ability_used = false;
    state.in_play_pokemon[0][0] = Some(butterfree);
    let bulbasaur = get_card_by_enum(CardId::A1001Bulbasaur);
    let mut pokemon1 = to_playable_card(&bulbasaur, true);
    pokemon1.apply_damage(30);
    state.in_play_pokemon[0][1] = Some(pokemon1);
    let mut pokemon2 = to_playable_card(&bulbasaur, true);
    pokemon2.apply_damage(40);
    state.in_play_pokemon[0][2] = Some(pokemon2);
    apply_abilities_action(0, &mut state, 0);
    assert!(state.in_play_pokemon[0][0].as_ref().unwrap().ability_used);
    let pokemon1 = state.in_play_pokemon[0][1].as_ref().unwrap();
    assert_eq!(pokemon1.total_hp - pokemon1.remaining_hp, 10);
    let pokemon2 = state.in_play_pokemon[0][2].as_ref().unwrap();
    assert_eq!(pokemon2.total_hp - pokemon2.remaining_hp, 20);
}

#[test]
fn test_butterfree_ability_caps_at_full_health() {
    let (deck_a, deck_b) = load_test_decks();
    let mut state = State::new(&deck_a, &deck_b);
    let card = get_card_by_enum(CardId::A1007Butterfree);
    let mut butterfree = to_playable_card(&card, true);
    butterfree.ability_used = false;
    state.in_play_pokemon[0][0] = Some(butterfree);
    let bulbasaur = get_card_by_enum(CardId::A1001Bulbasaur);
    let mut pokemon = to_playable_card(&bulbasaur, true);
    let max_hp = pokemon.total_hp;
    pokemon.apply_damage(10);
    state.in_play_pokemon[0][1] = Some(pokemon);
    apply_abilities_action(0, &mut state, 0);
    let healed_pokemon = state.in_play_pokemon[0][1].as_ref().unwrap();
    assert_eq!(healed_pokemon.total_hp - healed_pokemon.remaining_hp, 0);
    assert_eq!(healed_pokemon.remaining_hp, max_hp);
}

#[test]
fn test_weezing_ability_poisons_opponent() {
    let (deck_a, deck_b) = load_test_decks();
    let mut state = State::new(&deck_a, &deck_b);
    let card = get_card_by_enum(CardId::A1177Weezing);
    let mut weezing = to_playable_card(&card, true);
    weezing.ability_used = false;
    state.in_play_pokemon[0][0] = Some(weezing);
    let opponent_card = get_card_by_enum(CardId::A1001Bulbasaur);
    let opponent_pokemon = to_playable_card(&opponent_card, true);
    state.in_play_pokemon[1][0] = Some(opponent_pokemon);
    assert!(!state.in_play_pokemon[1][0].as_ref().unwrap().poisoned);
    apply_abilities_action(0, &mut state, 0);
    assert!(state.in_play_pokemon[0][0].as_ref().unwrap().ability_used);
    assert!(state.in_play_pokemon[1][0].as_ref().unwrap().poisoned);
}

#[test]
fn test_gardevoir_ability_attaches_psychic_energy() {
    let (deck_a, deck_b) = load_test_decks();
    let mut state = State::new(&deck_a, &deck_b);
    let card = get_card_by_enum(CardId::A1132Gardevoir);
    let mut gardevoir = to_playable_card(&card, true);
    gardevoir.ability_used = false;
    state.in_play_pokemon[0][2] = Some(gardevoir);
    let active_card = get_card_by_enum(CardId::A1001Bulbasaur);
    let mut active = to_playable_card(&active_card, true);
    active.attached_energy = vec![EnergyType::Grass];
    state.in_play_pokemon[0][0] = Some(active);
    apply_abilities_action(0, &mut state, 2);
    assert!(state.in_play_pokemon[0][2].as_ref().unwrap().ability_used);
    let active_energy = &state.in_play_pokemon[0][0].as_ref().unwrap().attached_energy;
    assert_eq!(active_energy.len(), 2);
    assert!(active_energy.contains(&EnergyType::Psychic));
}

#[test]
fn test_ability_marks_used_flag() {
    let (deck_a, deck_b) = load_test_decks();
    let mut state = State::new(&deck_a, &deck_b);
    let card = get_card_by_enum(CardId::A1007Butterfree);
    let mut pokemon = to_playable_card(&card, true);
    pokemon.ability_used = false;
    state.in_play_pokemon[0][0] = Some(pokemon);
    assert!(!state.in_play_pokemon[0][0].as_ref().unwrap().ability_used);
    apply_abilities_action(0, &mut state, 0);
    assert!(state.in_play_pokemon[0][0].as_ref().unwrap().ability_used);
}

#[test]
fn test_weezing_ability_only_affects_active() {
    let (deck_a, deck_b) = load_test_decks();
    let mut state = State::new(&deck_a, &deck_b);
    let card = get_card_by_enum(CardId::A1177Weezing);
    let mut weezing = to_playable_card(&card, true);
    weezing.ability_used = false;
    state.in_play_pokemon[0][0] = Some(weezing);
    let opponent_card = get_card_by_enum(CardId::A1001Bulbasaur);
    let active = to_playable_card(&opponent_card, true);
    state.in_play_pokemon[1][0] = Some(active);
    let bench = to_playable_card(&opponent_card, true);
    state.in_play_pokemon[1][1] = Some(bench);
    apply_abilities_action(0, &mut state, 0);
    assert!(state.in_play_pokemon[1][0].as_ref().unwrap().poisoned);
    assert!(!state.in_play_pokemon[1][1].as_ref().unwrap().poisoned);
}

#[test]
fn test_gardevoir_multiple_uses() {
    let (deck_a, deck_b) = load_test_decks();
    let mut state = State::new(&deck_a, &deck_b);
    let card = get_card_by_enum(CardId::A1132Gardevoir);
    let mut gardevoir = to_playable_card(&card, true);
    gardevoir.ability_used = false;
    state.in_play_pokemon[0][1] = Some(gardevoir);
    let active_card = get_card_by_enum(CardId::A1001Bulbasaur);
    let active = to_playable_card(&active_card, true);
    state.in_play_pokemon[0][0] = Some(active);
    apply_abilities_action(0, &mut state, 1);
    let energy_count = state.in_play_pokemon[0][0].as_ref().unwrap().attached_energy.len();
    assert_eq!(energy_count, 1);
    state.in_play_pokemon[0][1].as_mut().unwrap().ability_used = false;
    apply_abilities_action(0, &mut state, 1);
    let energy_count = state.in_play_pokemon[0][0].as_ref().unwrap().attached_energy.len();
    assert_eq!(energy_count, 2);
}

#[test]
fn test_butterfree_heals_empty_slots() {
    let (deck_a, deck_b) = load_test_decks();
    let mut state = State::new(&deck_a, &deck_b);
    let card = get_card_by_enum(CardId::A1007Butterfree);
    let mut butterfree = to_playable_card(&card, true);
    butterfree.ability_used = false;
    state.in_play_pokemon[0][0] = Some(butterfree);
    let bulbasaur = get_card_by_enum(CardId::A1001Bulbasaur);
    let mut pokemon = to_playable_card(&bulbasaur, true);
    pokemon.apply_damage(30);
    state.in_play_pokemon[0][3] = Some(pokemon);
    apply_abilities_action(0, &mut state, 0);
    let healed_pokemon = state.in_play_pokemon[0][3].as_ref().unwrap();
    assert_eq!(healed_pokemon.total_hp - healed_pokemon.remaining_hp, 10);
}

#[test]
fn test_forecast_action_deterministic() {
    let (deck_a, deck_b) = load_test_decks();
    let state = State::new(&deck_a, &deck_b);
    let actions = vec![
        SimpleAction::DrawCard,
        SimpleAction::Place(get_card_by_enum(CardId::A1141Mankey), 0),
        SimpleAction::Attach {
            attachments: vec![(1, EnergyType::Fighting, 0)],
            is_turn_energy: false,
        },
        SimpleAction::AttachTool { in_play_idx: 0, tool_id: ToolId::PA010RockyHelmet },
        SimpleAction::Evolve(get_card_by_enum(CardId::A1142Primeape), 0),
        SimpleAction::UseAbility(0),
        SimpleAction::Activate { in_play_idx: 1 },
        SimpleAction::Retreat(1),
        SimpleAction::ApplyDamage { targets: vec![(30, 0)] },
        SimpleAction::Heal { in_play_idx: 0, amount: 30 },
    ];
    for simple_action in actions {
        let action = Action { actor: 0, action: simple_action, is_stack: false };
        let (probs, outcomes) = forecast_action(&state, &action);
        assert_eq!(probs.len(), 1);
        assert_eq!(probs[0], 64);
        assert_eq!(outcomes.len(), 1);
    }
}

#[test]
fn test_no_information_leakage() {
    let (deck_a, deck_b) = load_test_decks();
    let state = State::new(&deck_a, &deck_b);
    let prof_research = TrainerCard {
        id: "P-A 007".to_string(),
        numeric_id: 907,
        name: "Professor's Research".to_string(),
        trainer_card_type: TrainerType::Supporter,
        effect: "Draw 2 cards.".to_string(),
        rarity: "Common".to_string(),
        booster_pack: "Promo-A".to_string(),
    };
    let (probs, outcomes) = forecast_trainer_action_safe(0, &state, &prof_research);
    assert_eq!(probs.len(), 1);
    assert_eq!(probs[0], 64);
    assert_eq!(outcomes.len(), 1);
}

#[test]
fn test_pokeball_no_deck_reveal() {
    let (deck_a, deck_b) = load_test_decks();
    let state = State::new(&deck_a, &deck_b);
    let pokeball = TrainerCard {
        id: "P-A 005".to_string(),
        numeric_id: 905,
        name: "Poke Ball".to_string(),
        trainer_card_type: TrainerType::Item,
        effect: "Put 1 random Basic Pokemon from your deck into your hand.".to_string(),
        rarity: "Common".to_string(),
        booster_pack: "Promo-A".to_string(),
    };
    let (probs, outcomes) = forecast_trainer_action_safe(0, &state, &pokeball);
    assert_eq!(probs.len(), 1);
    assert_eq!(outcomes.len(), 1);
    match &outcomes[0] {
        Outcome::TrainerPlay => {}
        _ => panic!("Expected a single trainer resolution"),
    }
}
