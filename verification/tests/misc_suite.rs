use deckgym::errors::{GameError, OptionExt};
use deckgym::hidden_information::HiddenKnowledge;
use deckgym::players::{AttachAttackPlayer, EndTurnPlayer, Player, RandomPlayer};
use deckgym::test_helpers::load_test_decks;
use deckgym::types::{Card, EnergyType, PokemonCard, TrainerCard, TrainerType};

#[test]
fn test_error_display() {
    let err = GameError::InvalidCardPosition { position: 5, max: 3 };
    assert_eq!(err.message(), "Invalid card position 5, max allowed is 3");
    let err = GameError::CardNotInHand { card_name: "Pikachu".to_string(), player: 0 };
    assert_eq!(err.message(), "Card 'Pikachu' not found in player 1's hand");
}

#[test]
fn test_option_ext() {
    let result: Result<i32, GameError> =
        None.ok_or_game_error(GameError::EmptyDeck { player: 0 });
    assert!(result.is_err());
    let result: Result<i32, GameError> =
        Some(42).ok_or_game_error(GameError::EmptyDeck { player: 0 });
    assert_eq!(result.unwrap(), 42);
}

#[test]
fn test_helper_functions() {
    let err = GameError::invalid_position(5, 3);
    match err {
        GameError::InvalidCardPosition { position, max } => {
            assert_eq!(position, 5);
            assert_eq!(max, 3);
        }
        _ => panic!("Wrong error type"),
    }
}

#[test]
fn test_hidden_knowledge_tracking() {
    let card1 = Card::Pokemon(PokemonCard {
        id: "h1".to_string(),
        name: "Pikachu".to_string(),
        hp: 60,
        energy_type: EnergyType::Lightning,
        stage: 0,
        evolves_from: None,
        weakness: None,
        ability: None,
        attacks: vec![],
        retreat_cost: vec![],
        rarity: "Common".to_string(),
        booster_pack: "Base".to_string(),
    });
    let card2 = Card::Trainer(TrainerCard {
        id: "h2".to_string(),
        numeric_id: 2,
        name: "Potion".to_string(),
        trainer_card_type: TrainerType::Item,
        effect: "Heal".to_string(),
        rarity: "Common".to_string(),
        booster_pack: "Base".to_string(),
    });
    let deck1 = vec![card1.clone(); 10];
    let deck2 = vec![card2.clone(); 10];
    let mut knowledge = HiddenKnowledge::from_decklists(&deck1, &deck2);
    assert_eq!(knowledge.known_count(0, &card2), 10);
    knowledge.card_played_from_hand(1, &card2);
    assert_eq!(knowledge.known_count(0, &card2), 9);
    assert_eq!(knowledge.known_hand_sizes[1], 4);
}

#[test]
fn test_random_player_creation() {
    let (deck, _) = load_test_decks();
    let player = RandomPlayer { deck: deck.clone() };
    assert_eq!(player.get_deck().cards.len(), deck.cards.len());
}

#[test]
fn test_random_player_debug_format() {
    let (deck, _) = load_test_decks();
    let player = RandomPlayer { deck };
    assert_eq!(player.label(), "RandomPlayer");
}

#[test]
fn test_random_player_get_deck() {
    let (deck, _) = load_test_decks();
    let original_deck_size = deck.cards.len();
    let player = RandomPlayer { deck };
    let retrieved_deck = player.get_deck();
    assert_eq!(retrieved_deck.cards.len(), original_deck_size);
    let second_retrieval = player.get_deck();
    assert_eq!(second_retrieval.cards.len(), original_deck_size);
}

#[test]
fn test_attach_attack_player_creation() {
    let (deck, _) = load_test_decks();
    let player = AttachAttackPlayer { deck: deck.clone() };
    assert_eq!(player.get_deck().cards.len(), deck.cards.len());
}

#[test]
fn test_debug_format() {
    let (deck, _) = load_test_decks();
    let player = AttachAttackPlayer { deck };
    assert_eq!(player.label(), "AttachAttackPlayer");
}

#[test]
fn test_get_deck() {
    let (deck, _) = load_test_decks();
    let original_deck_size = deck.cards.len();
    let player = AttachAttackPlayer { deck };
    let retrieved_deck = player.get_deck();
    assert_eq!(retrieved_deck.cards.len(), original_deck_size);
    let second_retrieval = player.get_deck();
    assert_eq!(second_retrieval.cards.len(), original_deck_size);
}

#[test]
fn test_end_turn_player_label() {
    let (deck, _) = load_test_decks();
    let player = EndTurnPlayer { deck };
    assert_eq!(player.label(), "EndTurnPlayer");
}
