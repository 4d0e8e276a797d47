use deckgym::actions::SimpleAction;
use deckgym::card_ids::CardId;
use deckgym::database::get_card_by_enum;
use deckgym::hooks::to_playable_card;
use deckgym::move_generation::{
    generate_ability_actions, generate_attack_actions, generate_possible_trainer_actions,
};
use deckgym::state::State;
use deckgym::test_helpers::load_test_decks;
use deckgym::types::{Card, EnergyType, TrainerCard};

fn get_trainer_card(card_id: CardId) -> TrainerCard {
    match get_card_by_enum(card_id) {
        Card::Trainer(trainer) => trainer,
        _ => panic!("Expected trainer card"),
    }
}

#[test]
fn test_no_attacks_on_first_turn() {
    let (deck_a, deck_b) = load_test_decks();
    let mut state = State::new(&deck_a, &deck_b);
    let actions = generate_attack_actions(&state);
    assert_eq!(actions.len(), 0, "Should not generate attacks on turn 0");
    state.turn_count = 1;
    let actions = generate_attack_actions(&state);
    assert_eq!(actions.len(), 0, "Should not generate attacks on turn 1");
}

#[test]
fn test_no_attacks_without_active_pokemon() {
    let (deck_a, deck_b) = load_test_decks();
    let mut state = State::new(&deck_a, &deck_b);
    state.turn_count = 2;
    state.in_play_pokemon[state.current_player][0] = None;
    let actions = generate_attack_actions(&state);
    assert_eq!(actions.len(), 0);
}

#[test]
fn test_no_attacks_without_required_energy() {
    let (deck_a, deck_b) = load_test_decks();
    let mut state = State::new(&deck_a, &deck_b);
    state.turn_count = 2;
    let card = get_card_by_enum(CardId::A1001Bulbasaur);
    let mut played_card = to_playable_card(&card, true);
    played_card.attached_energy = vec![];
    state.in_play_pokemon[state.current_player][0] = Some(played_card);
    let actions = generate_attack_actions(&state);
    assert_eq!(actions.len(), 0);
}

#[test]
fn test_generates_attack_with_sufficient_energy() {
    let (deck_a, deck_b) = load_test_decks();
    let mut state = State::new(&deck_a, &deck_b);
    state.turn_count = 2;
    let card = get_card_by_enum(CardId::A1001Bulbasaur);
    let mut played_card = to_playable_card(&card, true);
    played_card.attached_energy = vec![EnergyType::Grass, EnergyType::Grass];
    state.in_play_pokemon[state.current_player][0] = Some(played_card);
    let actions = generate_attack_actions(&state);
    assert!(actions.len() > 0);
    match &actions[0] {
        SimpleAction::Attack(index) => {
            assert_eq!(*index, 0);
        }
        _ => panic!("Expected Attack action"),
    }
}

#[test]
fn test_generates_multiple_attacks_when_available() {
    let (deck_a, deck_b) = load_test_decks();
    let mut state = State::new(&deck_a, &deck_b);
    state.turn_count = 2;
    let card = get_card_by_enum(CardId::A1002Ivysaur);
    let mut played_card = to_playable_card(&card, true);
    played_card.attached_energy = vec![
        EnergyType::Grass,
        EnergyType::Grass,
        EnergyType::Grass,
        EnergyType::Grass,
        EnergyType::Fire,
        EnergyType::Water,
    ];
    state.in_play_pokemon[state.current_player][0] = Some(played_card.clone());
    let actions = generate_attack_actions(&state);
    let attack_count = played_card.get_attacks().len();
    assert!(actions.len() <= attack_count);
    for action in actions.iter() {
        match action {
            SimpleAction::Attack(index) => {
                assert!(*index < attack_count);
            }
            _ => panic!("Expected Attack action"),
        }
    }
}

#[test]
fn test_only_generates_attacks_with_matching_energy() {
    let (deck_a, deck_b) = load_test_decks();
    let mut state = State::new(&deck_a, &deck_b);
    state.turn_count = 2;
    let card = get_card_by_enum(CardId::A1033Charmander);
    let mut played_card = to_playable_card(&card, true);
    played_card.attached_energy = vec![EnergyType::Fire, EnergyType::Fire];
    state.in_play_pokemon[state.current_player][0] = Some(played_card.clone());
    let actions = generate_attack_actions(&state);
    for action in &actions {
        match action {
            SimpleAction::Attack(index) => {
                let attack = &played_card.get_attacks()[*index];
                for req in &attack.energy_required {
                    let found = played_card.attached_energy.iter().position(|e| e == req);
                    assert!(found.is_some());
                }
            }
            _ => panic!("Expected Attack action"),
        }
    }
}

#[test]
fn test_respects_current_player() {
    let (deck_a, deck_b) = load_test_decks();
    let mut state = State::new(&deck_a, &deck_b);
    state.turn_count = 2;
    let card = get_card_by_enum(CardId::A1001Bulbasaur);
    let mut played_card_p0 = to_playable_card(&card, true);
    played_card_p0.attached_energy = vec![EnergyType::Grass, EnergyType::Grass];
    state.in_play_pokemon[0][0] = Some(played_card_p0);
    let mut played_card_p1 = to_playable_card(&card, true);
    played_card_p1.attached_energy = vec![EnergyType::Fire, EnergyType::Fire];
    state.in_play_pokemon[1][0] = Some(played_card_p1);
    state.current_player = 0;
    let actions_p0 = generate_attack_actions(&state);
    state.current_player = 1;
    let actions_p1 = generate_attack_actions(&state);
    assert!(actions_p0.len() > 0);
    assert_eq!(actions_p1.len(), 0);
}

#[test]
fn test_attack_index_ordering() {
    let (deck_a, deck_b) = load_test_decks();
    let mut state = State::new(&deck_a, &deck_b);
    state.turn_count = 2;
    let card = get_card_by_enum(CardId::A1002Ivysaur);
    let mut played_card = to_playable_card(&card, true);
    played_card.attached_energy = vec![
        EnergyType::Grass,
        EnergyType::Grass,
        EnergyType::Grass,
        EnergyType::Grass,
        EnergyType::Grass,
        EnergyType::Grass,
    ];
    state.in_play_pokemon[state.current_player][0] = Some(played_card.clone());
    let actions = generate_attack_actions(&state);
    let mut last_index = None;
    for action in &actions {
        match action {
            SimpleAction::Attack(index) => {
                if let Some(last) = last_index {
                    assert!(*index > last);
                }
                last_index = Some(*index);
            }
            _ => panic!("Expected Attack action"),
        }
    }
}

#[test]
fn test_colorless_energy_compatibility() {
    let (deck_a, deck_b) = load_test_decks();
    let mut state = State::new(&deck_a, &deck_b);
    state.turn_count = 2;
    let card = get_card_by_enum(CardId::A1186Pidgey);
    let mut played_card = to_playable_card(&card, true);
    played_card.attached_energy = vec![EnergyType::Fire, EnergyType::Water];
    state.in_play_pokemon[state.current_player][0] = Some(played_card.clone());
    let actions = generate_attack_actions(&state);
    assert!(actions.len() > 0);
}

#[test]
fn test_mixed_energy_requirements() {
    let (deck_a, deck_b) = load_test_decks();
    let mut state = State::new(&deck_a, &deck_b);
    state.turn_count = 2;
    let card = get_card_by_enum(CardId::A1003Venusaur);
    let mut played_card = to_playable_card(&card, true);
    played_card.attached_energy = vec![EnergyType::Grass, EnergyType::Fire];
    state.in_play_pokemon[state.current_player][0] = Some(played_card.clone());
    let actions_insufficient = generate_attack_actions(&state);
    played_card.attached_energy = vec![
        EnergyType::Grass,
        EnergyType::Grass,
        EnergyType::Grass,
        EnergyType::Grass,
        EnergyType::Fire,
        EnergyType::Water,
    ];
    state.in_play_pokemon[state.current_player][0] = Some(played_card);
    let actions_sufficient = generate_attack_actions(&state);
    assert!(actions_sufficient.len() >= actions_insufficient.len());
}

#[test]
fn test_no_abilities_when_no_pokemon() {
    let (deck_a, deck_b) = load_test_decks();
    let state = State::new(&deck_a, &deck_b);
    let actions = generate_ability_actions(&state);
    assert_eq!(actions.len(), 0);
}

#[test]
fn test_no_abilities_for_pokemon_without_ability() {
    let (deck_a, deck_b) = load_test_decks();
    let mut state = State::new(&deck_a, &deck_b);
    let card = get_card_by_enum(CardId::A1001Bulbasaur);
    let played_card = to_playable_card(&card, true);
    assert!(played_card.card.get_ability().is_none());
    state.in_play_pokemon[state.current_player][0] = Some(played_card);
    let actions = generate_ability_actions(&state);
    assert_eq!(actions.len(), 0);
}

#[test]
fn test_butterfree_ability_when_not_used() {
    let (deck_a, deck_b) = load_test_decks();
    let mut state = State::new(&deck_a, &deck_b);
    let card = get_card_by_enum(CardId::A1007Butterfree);
    let mut played_card = to_playable_card(&card, true);
    played_card.ability_used = false;
    state.in_play_pokemon[state.current_player][0] = Some(played_card);
    let actions = generate_ability_actions(&state);
    assert_eq!(actions.len(), 1);
    assert!(matches!(actions[0], SimpleAction::UseAbility(0)));
}

#[test]
fn test_butterfree_ability_blocked_when_used() {
    let (deck_a, deck_b) = load_test_decks();
    let mut state = State::new(&deck_a, &deck_b);
    let card = get_card_by_enum(CardId::A1007Butterfree);
    let mut played_card = to_playable_card(&card, true);
    played_card.ability_used = true;
    state.in_play_pokemon[state.current_player][0] = Some(played_card);
    let actions = generate_ability_actions(&state);
    assert_eq!(actions.len(), 0);
}

#[test]
fn test_weezing_ability_requires_active_position() {
    let (deck_a, deck_b) = load_test_decks();
    let mut state = State::new(&deck_a, &deck_b);
    let card = get_card_by_enum(CardId::A1177Weezing);
    let mut played_card = to_playable_card(&card, true);
    played_card.ability_used = false;
    state.in_play_pokemon[state.current_player][1] = Some(played_card);
    let actions_bench = generate_ability_actions(&state);
    assert_eq!(actions_bench.len(), 0);
    let weezing = state.in_play_pokemon[state.current_player][1].take();
    state.in_play_pokemon[state.current_player][0] = weezing;
    let actions_active = generate_ability_actions(&state);
    assert_eq!(actions_active.len(), 1);
    assert!(matches!(actions_active[0], SimpleAction::UseAbility(0)));
}

#[test]
fn test_weezing_ability_blocked_when_used() {
    let (deck_a, deck_b) = load_test_decks();
    let mut state = State::new(&deck_a, &deck_b);
    let card = get_card_by_enum(CardId::A1177Weezing);
    let mut played_card = to_playable_card(&card, true);
    played_card.ability_used = true;
    state.in_play_pokemon[state.current_player][0] = Some(played_card);
    let actions = generate_ability_actions(&state);
    assert_eq!(actions.len(), 0);
}

#[test]
fn test_gardevoir_ability_when_not_used() {
    let (deck_a, deck_b) = load_test_decks();
    let mut state = State::new(&deck_a, &deck_b);
    let card = get_card_by_enum(CardId::A1132Gardevoir);
    let mut played_card = to_playable_card(&card, true);
    played_card.ability_used = false;
    state.in_play_pokemon[state.current_player][2] = Some(played_card);
    let actions = generate_ability_actions(&state);
    assert_eq!(actions.len(), 1);
    assert!(matches!(actions[0], SimpleAction::UseAbility(2)));
}

#[test]
fn test_gardevoir_ability_blocked_when_used() {
    let (deck_a, deck_b) = load_test_decks();
    let mut state = State::new(&deck_a, &deck_b);
    let card = get_card_by_enum(CardId::A1132Gardevoir);
    let mut played_card = to_playable_card(&card, true);
    played_card.ability_used = true;
    state.in_play_pokemon[state.current_player][1] = Some(played_card);
    let actions = generate_ability_actions(&state);
    assert_eq!(actions.len(), 0);
}

#[test]
fn test_arceus_ability_never_allowed() {
    let (deck_a, deck_b) = load_test_decks();
    let mut state = State::new(&deck_a, &deck_b);
    let card = get_card_by_enum(CardId::A2a071ArceusEx);
    let mut played_card = to_playable_card(&card, true);
    played_card.ability_used = false;
    state.in_play_pokemon[state.current_player][0] = Some(played_card);
    let actions = generate_ability_actions(&state);
    assert_eq!(actions.len(), 0);
}

#[test]
fn test_multiple_pokemon_with_abilities() {
    let (deck_a, deck_b) = load_test_decks();
    let mut state = State::new(&deck_a, &deck_b);
    let weezing_card = get_card_by_enum(CardId::A1177Weezing);
    let mut played_card = to_playable_card(&weezing_card, true);
    played_card.ability_used = false;
    state.in_play_pokemon[state.current_player][0] = Some(played_card);
    let butterfree_card = get_card_by_enum(CardId::A1007Butterfree);
    let mut played_card = to_playable_card(&butterfree_card, true);
    played_card.ability_used = false;
    state.in_play_pokemon[state.current_player][1] = Some(played_card);
    let gardevoir_card = get_card_by_enum(CardId::A1132Gardevoir);
    let mut played_card = to_playable_card(&gardevoir_card, true);
    played_card.ability_used = false;
    state.in_play_pokemon[state.current_player][2] = Some(played_card);
    let actions = generate_ability_actions(&state);
    assert_eq!(actions.len(), 3);
    assert!(actions.contains(&SimpleAction::UseAbility(0)));
    assert!(actions.contains(&SimpleAction::UseAbility(1)));
    assert!(actions.contains(&SimpleAction::UseAbility(2)));
}

#[test]
fn test_mixed_used_and_unused_abilities() {
    let (deck_a, deck_b) = load_test_decks();
    let mut state = State::new(&deck_a, &deck_b);
    let butterfree_card = get_card_by_enum(CardId::A1007Butterfree);
    let mut played_card = to_playable_card(&butterfree_card, true);
    played_card.ability_used = false;
    state.in_play_pokemon[state.current_player][0] = Some(played_card);
    let gardevoir_card = get_card_by_enum(CardId::A1132Gardevoir);
    let mut played_card = to_playable_card(&gardevoir_card, true);
    played_card.ability_used = true;
    state.in_play_pokemon[state.current_player][1] = Some(played_card);
    let actions = generate_ability_actions(&state);
    assert_eq!(actions.len(), 1);
    assert!(matches!(actions[0], SimpleAction::UseAbility(0)));
}

#[test]
fn abilities_test_test_respects_current_player() {
    let (deck_a, deck_b) = load_test_decks();
    let mut state = State::new(&deck_a, &deck_b);
    let card = get_card_by_enum(CardId::A1007Butterfree);
    let mut played_card0 = to_playable_card(&card, true);
    played_card0.ability_used = false;
    state.in_play_pokemon[0][0] = Some(played_card0);
    let mut played_card1 = to_playable_card(&card, true);
    played_card1.ability_used = false;
    state.in_play_pokemon[1][0] = Some(played_card1);
    state.current_player = 0;
    let actions_p0 = generate_ability_actions(&state);
    assert_eq!(actions_p0.len(), 1);
    state.current_player = 1;
    let actions_p1 = generate_ability_actions(&state);
    assert_eq!(actions_p1.len(), 1);
}

#[test]
fn test_ability_action_indices() {
    let (deck_a, deck_b) = load_test_decks();
    let mut state = State::new(&deck_a, &deck_b);
    let butterfree_card = get_card_by_enum(CardId::A1007Butterfree);
    let mut played_card1 = to_playable_card(&butterfree_card, true);
    played_card1.ability_used = false;
    state.in_play_pokemon[state.current_player][1] = Some(played_card1);
    let mut played_card3 = to_playable_card(&butterfree_card, true);
    played_card3.ability_used = false;
    state.in_play_pokemon[state.current_player][3] = Some(played_card3);
    let actions = generate_ability_actions(&state);
    assert_eq!(actions.len(), 2);
    assert!(actions.contains(&SimpleAction::UseAbility(1)));
    assert!(actions.contains(&SimpleAction::UseAbility(3)));
    assert!(!actions.contains(&SimpleAction::UseAbility(0)));
    assert!(!actions.contains(&SimpleAction::UseAbility(2)));
}

#[test]
fn test_supporter_blocked_when_already_played() {
    let (deck_a, deck_b) = load_test_decks();
    let mut state = State::new(&deck_a, &deck_b);
    state.has_played_support = true;
    let giovanni = get_trainer_card(CardId::A1223Giovanni);
    let actions = generate_possible_trainer_actions(&state, &giovanni);
    assert!(actions.is_some());
    assert_eq!(actions.unwrap().len(), 0);
}

#[test]
fn test_supporter_allowed_when_not_played() {
    let (deck_a, deck_b) = load_test_decks();
    let mut state = State::new(&deck_a, &deck_b);
    state.has_played_support = false;
    let giovanni = get_trainer_card(CardId::A1223Giovanni);
    let actions = generate_possible_trainer_actions(&state, &giovanni);
    assert!(actions.is_some());
    assert_eq!(actions.unwrap().len(), 1);
}

#[test]
fn test_tool_requires_pokemon_without_tool() {
    let (deck_a, deck_b) = load_test_decks();
    let mut state = State::new(&deck_a, &deck_b);
    let tool_card = get_trainer_card(CardId::A2147GiantCape);
    let actions_no_pokemon = generate_possible_trainer_actions(&state, &tool_card);
    assert_eq!(actions_no_pokemon.unwrap().len(), 0);
    let card = get_card_by_enum(CardId::A1001Bulbasaur);
    state.in_play_pokemon[state.current_player][0] = Some(to_playable_card(&card, true));
    let actions_with_pokemon = generate_possible_trainer_actions(&state, &tool_card);
    assert_eq!(actions_with_pokemon.unwrap().len(), 1);
}

#[test]
fn test_potion_requires_damaged_pokemon() {
    let (deck_a, deck_b) = load_test_decks();
    let mut state = State::new(&deck_a, &deck_b);
    let potion = get_trainer_card(CardId::PA001Potion);
    let actions_no_pokemon = generate_possible_trainer_actions(&state, &potion);
    assert_eq!(actions_no_pokemon.unwrap().len(), 0);
    let card = get_card_by_enum(CardId::A1001Bulbasaur);
    state.in_play_pokemon[state.current_player][0] = Some(to_playable_card(&card, true));
    let actions_healthy = generate_possible_trainer_actions(&state, &potion);
    assert_eq!(actions_healthy.unwrap().len(), 0);
    if let Some(pokemon) = &mut state.in_play_pokemon[state.current_player][0] {
        pokemon.apply_damage(20);
    }
    let actions_damaged = generate_possible_trainer_actions(&state, &potion);
    assert_eq!(actions_damaged.unwrap().len(), 1);
}

#[test]
fn test_erika_requires_damaged_grass_pokemon() {
    let (deck_a, deck_b) = load_test_decks();
    let mut state = State::new(&deck_a, &deck_b);
    let erika = get_trainer_card(CardId::A1219Erika);
    let fire_card = get_card_by_enum(CardId::A1033Charmander);
    let mut played_card = to_playable_card(&fire_card, true);
    played_card.apply_damage(20);
    state.in_play_pokemon[state.current_player][0] = Some(played_card);
    let actions_wrong_type = generate_possible_trainer_actions(&state, &erika);
    assert_eq!(actions_wrong_type.unwrap().len(), 0);
    let grass_card = get_card_by_enum(CardId::A1001Bulbasaur);
    let mut played_card = to_playable_card(&grass_card, true);
    played_card.apply_damage(20);
    state.in_play_pokemon[state.current_player][0] = Some(played_card);
    let actions_grass = generate_possible_trainer_actions(&state, &erika);
    assert_eq!(actions_grass.unwrap().len(), 1);
}

#[test]
fn test_misty_requires_water_pokemon() {
    let (deck_a, deck_b) = load_test_decks();
    let mut state = State::new(&deck_a, &deck_b);
    let misty = get_trainer_card(CardId::A1220Misty);
    let actions_no_pokemon = generate_possible_trainer_actions(&state, &misty);
    assert_eq!(actions_no_pokemon.unwrap().len(), 0);
    let fire_card = get_card_by_enum(CardId::A1033Charmander);
    state.in_play_pokemon[state.current_player][0] = Some(to_playable_card(&fire_card, true));
    let actions_wrong_type = generate_possible_trainer_actions(&state, &misty);
    assert_eq!(actions_wrong_type.unwrap().len(), 0);
    let water_card = get_card_by_enum(CardId::A1053Squirtle);
    state.in_play_pokemon[state.current_player][1] = Some(to_playable_card(&water_card, true));
    let actions_water = generate_possible_trainer_actions(&state, &misty);
    assert_eq!(actions_water.unwrap().len(), 1);
}

#[test]
fn test_koga_requires_specific_active_pokemon() {
    let (deck_a, deck_b) = load_test_decks();
    let mut state = State::new(&deck_a, &deck_b);
    let koga = get_trainer_card(CardId::A1222Koga);
    let actions_no_active = generate_possible_trainer_actions(&state, &koga);
    assert_eq!(actions_no_active.unwrap().len(), 0);
    let wrong_card = get_card_by_enum(CardId::A1001Bulbasaur);
    state.in_play_pokemon[state.current_player][0] = Some(to_playable_card(&wrong_card, true));
    let actions_wrong = generate_possible_trainer_actions(&state, &koga);
    assert_eq!(actions_wrong.unwrap().len(), 0);
    let weezing_card = get_card_by_enum(CardId::A1177Weezing);
    state.in_play_pokemon[state.current_player][0] = Some(to_playable_card(&weezing_card, true));
    let actions_weezing = generate_possible_trainer_actions(&state, &koga);
    assert_eq!(actions_weezing.unwrap().len(), 1);
    let muk_card = get_card_by_enum(CardId::A1175Muk);
    state.in_play_pokemon[state.current_player][0] = Some(to_playable_card(&muk_card, true));
    let actions_muk = generate_possible_trainer_actions(&state, &koga);
    assert_eq!(actions_muk.unwrap().len(), 1);
}

#[test]
fn test_sabrina_requires_opponent_bench() {
    let (deck_a, deck_b) = load_test_decks();
    let mut state = State::new(&deck_a, &deck_b);
    let sabrina = get_trainer_card(CardId::A1225Sabrina);
    let opponent = (state.current_player + 1) % 2;
    let actions_no_bench = generate_possible_trainer_actions(&state, &sabrina);
    assert_eq!(actions_no_bench.unwrap().len(), 0);
    let card = get_card_by_enum(CardId::A1001Bulbasaur);
    state.in_play_pokemon[opponent][1] = Some(to_playable_card(&card, true));
    let actions_with_bench = generate_possible_trainer_actions(&state, &sabrina);
    assert_eq!(actions_with_bench.unwrap().len(), 1);
}

#[test]
fn test_cyrus_requires_damaged_opponent_bench() {
    let (deck_a, deck_b) = load_test_decks();
    let mut state = State::new(&deck_a, &deck_b);
    let cyrus = get_trainer_card(CardId::A2150Cyrus);
    let opponent = (state.current_player + 1) % 2;
    let actions_no_bench = generate_possible_trainer_actions(&state, &cyrus);
    assert_eq!(actions_no_bench.unwrap().len(), 0);
    let card = get_card_by_enum(CardId::A1001Bulbasaur);
    state.in_play_pokemon[opponent][1] = Some(to_playable_card(&card, true));
    let actions_healthy = generate_possible_trainer_actions(&state, &cyrus);
    assert_eq!(actions_healthy.unwrap().len(), 0);
    if let Some(pokemon) = &mut state.in_play_pokemon[opponent][1] {
        pokemon.apply_damage(30);
    }
    let actions_damaged = generate_possible_trainer_actions(&state, &cyrus);
    assert_eq!(actions_damaged.unwrap().len(), 1);
}

#[test]
fn test_always_playable_trainers() {
    let (deck_a, deck_b) = load_test_decks();
    let state = State::new(&deck_a, &deck_b);
    let always_playable = vec![
        CardId::PA002XSpeed,
        CardId::PA005PokeBall,
        CardId::PA006RedCard,
        CardId::PA007ProfessorsResearch,
        CardId::A1223Giovanni,
        CardId::A1270Giovanni,
        CardId::A1a065MythicalSlab,
        CardId::A1a068Leaf,
        CardId::A1a082Leaf,
    ];
    for card_id in always_playable {
        let trainer = get_trainer_card(card_id);
        let actions = generate_possible_trainer_actions(&state, &trainer);
        assert!(actions.is_some(), "Card should be implemented");
        assert_eq!(actions.unwrap().len(), 1, "Card should always be playable");
    }
}

#[test]
fn test_unimplemented_trainer_returns_none() {
    let (deck_a, deck_b) = load_test_decks();
    let state = State::new(&deck_a, &deck_b);
    let mut unimplemented_trainer = get_trainer_card(CardId::PA001Potion);
    unimplemented_trainer.numeric_id = 9999;
    let actions = generate_possible_trainer_actions(&state, &unimplemented_trainer);
    assert!(actions.is_none());
}

#[test]
fn test_play_action_format() {
    let (deck_a, deck_b) = load_test_decks();
    let state = State::new(&deck_a, &deck_b);
    let giovanni = get_trainer_card(CardId::A1223Giovanni);
    let actions = generate_possible_trainer_actions(&state, &giovanni).unwrap();
    assert_eq!(actions.len(), 1);
    match &actions[0] {
        SimpleAction::Play { trainer_card } => {
            assert_eq!(trainer_card.numeric_id, giovanni.numeric_id);
        }
        _ => panic!("Expected Play action"),
    }
}

#[test]
fn test_multiple_damaged_pokemon_still_one_action() {
    let (deck_a, deck_b) = load_test_decks();
    let mut state = State::new(&deck_a, &deck_b);
    let potion = get_trainer_card(CardId::PA001Potion);
    for i in 0..3 {
        let card = get_card_by_enum(CardId::A1001Bulbasaur);
        let mut pokemon = to_playable_card(&card, true);
        pokemon.apply_damage(20);
        state.in_play_pokemon[state.current_player][i] = Some(pokemon);
    }
    let actions = generate_possible_trainer_actions(&state, &potion);
    assert_eq!(actions.unwrap().len(), 1);
}

#[test]
fn test_tool_detection_with_has_tool_attached() {
    let (deck_a, deck_b) = load_test_decks();
    let mut state = State::new(&deck_a, &deck_b);
    let tool_card = get_trainer_card(CardId::A2147GiantCape);
    let card = get_card_by_enum(CardId::A1001Bulbasaur);
    let played_card = to_playable_card(&card, true);
    state.in_play_pokemon[state.current_player][0] = Some(played_card);
    let actions = generate_possible_trainer_actions(&state, &tool_card);
    assert!(actions.is_some());
}

#[test]
fn test_supporter_check_happens_first() {
    let (deck_a, deck_b) = load_test_decks();
    let mut state = State::new(&deck_a, &deck_b);
    state.has_played_support = true;
    let sabrina = get_trainer_card(CardId::A1225Sabrina);
    let opponent = (state.current_player + 1) % 2;
    let card = get_card_by_enum(CardId::A1001Bulbasaur);
    state.in_play_pokemon[opponent][1] = Some(to_playable_card(&card, true));
    let actions = generate_possible_trainer_actions(&state, &sabrina);
    assert_eq!(actions.unwrap().len(), 0);
}
