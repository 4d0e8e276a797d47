use deckgym::tool_ids::ToolId;
use std::collections::HashSet;
use deckgym::state::format_card;
use deckgym::types::{
    Ability, Attack, Card, EnergyType, PlayedCard, PokemonCard, StatusCondition, TrainerCard,
    TrainerType,
};

fn sample_pokemon() -> PokemonCard {
    PokemonCard {
        id: "A1 001".to_string(),
        name: "Bulbasaur".to_string(),
        stage: 0,
        evolves_from: None,
        hp: 70,
        energy_type: EnergyType::Grass,
        ability: None,
        attacks: vec![],
        weakness: Some(EnergyType::Fire),
        retreat_cost: vec![EnergyType::Colorless],
        rarity: "\u{25ca}".to_string(),
        booster_pack: "Genetic Apex (A1)".to_string(),
    }
}

fn sample_trainer() -> TrainerCard {
    TrainerCard {
        id: "P-A 001".to_string(),
        numeric_id: 901,
        name: "Potion".to_string(),
        trainer_card_type: TrainerType::Item,
        effect: "Heal 20 damage".to_string(),
        rarity: "\u{25ca}".to_string(),
        booster_pack: "Promo-A".to_string(),
    }
}

fn played(card: Card) -> PlayedCard {
    let hp = match &card {
        Card::Pokemon(p) => p.hp,
        Card::Trainer(_) => 0,
    };
    PlayedCard {
        card,
        remaining_hp: hp,
        total_hp: hp,
        attached_energy: vec![],
        attached_tool: None,
        played_this_turn: false,
        ability_used: false,
        poisoned: false,
        paralyzed: false,
        asleep: false,
        cards_behind: vec![],
    }
}

#[test]
fn test_energy_type_from_str() {
    assert_eq!(EnergyType::from_str("Grass"), Some(EnergyType::Grass));
    assert_eq!(EnergyType::from_str("Fire"), Some(EnergyType::Fire));
    assert_eq!(EnergyType::from_str("Water"), Some(EnergyType::Water));
    assert_eq!(EnergyType::from_str("Lightning"), Some(EnergyType::Lightning));
    assert_eq!(EnergyType::from_str("Psychic"), Some(EnergyType::Psychic));
    assert_eq!(EnergyType::from_str("Fighting"), Some(EnergyType::Fighting));
    assert_eq!(EnergyType::from_str("Darkness"), Some(EnergyType::Darkness));
    assert_eq!(EnergyType::from_str("Metal"), Some(EnergyType::Metal));
    assert_eq!(EnergyType::from_str("Dragon"), Some(EnergyType::Dragon));
    assert_eq!(EnergyType::from_str("Colorless"), Some(EnergyType::Colorless));
    assert_eq!(EnergyType::from_str("Invalid"), None);
}

#[test]
fn test_energy_type_display() {
    assert_eq!(EnergyType::Grass.name(), "Grass");
    assert_eq!(EnergyType::Fire.name(), "Fire");
    assert_eq!(EnergyType::Water.name(), "Water");
    assert_eq!(EnergyType::Lightning.name(), "Lightning");
    assert_eq!(EnergyType::Psychic.name(), "Psychic");
    assert_eq!(EnergyType::Fighting.name(), "Fighting");
    assert_eq!(EnergyType::Darkness.name(), "Darkness");
    assert_eq!(EnergyType::Metal.name(), "Metal");
    assert_eq!(EnergyType::Dragon.name(), "Dragon");
    assert_eq!(EnergyType::Colorless.name(), "Colorless");
}

#[test]
fn test_energy_type_ordering() {
    let mut energies = vec![EnergyType::Fire, EnergyType::Grass, EnergyType::Water];
    energies.sort();
    assert_eq!(energies.len(), 3);
}

#[test]
fn test_pokemon_card_equality() {
    let card1 = sample_pokemon();
    let mut card2 = card1.clone();
    assert_eq!(card1, card2);
    card2.name = "Different Name".to_string();
    assert_eq!(card1, card2);
    card2.id = "A1 002".to_string();
    assert_ne!(card1, card2);
}

#[test]
fn test_trainer_card_equality() {
    let card1 = sample_trainer();
    let mut card2 = card1.clone();
    assert_eq!(card1, card2);
    card2.name = "Different Name".to_string();
    assert_eq!(card1, card2);
    card2.id = "P-A 002".to_string();
    assert_ne!(card1, card2);
}

#[test]
fn test_card_get_id() {
    let pokemon = Card::Pokemon(sample_pokemon());
    let trainer = Card::Trainer(sample_trainer());
    assert_eq!(pokemon.get_id(), "A1 001");
    assert_eq!(trainer.get_id(), "P-A 001");
}

#[test]
fn test_card_get_name() {
    let pokemon = Card::Pokemon(sample_pokemon());
    let trainer = Card::Trainer(sample_trainer());
    assert_eq!(pokemon.get_name(), "Bulbasaur");
    assert_eq!(trainer.get_name(), "Potion");
}

#[test]
fn test_card_is_ex() {
    let normal_pokemon = Card::Pokemon(sample_pokemon());
    let mut ex = sample_pokemon();
    ex.id = "A1 004".to_string();
    ex.name = "Venusaur ex".to_string();
    ex.stage = 2;
    ex.evolves_from = Some("Ivysaur".to_string());
    ex.hp = 190;
    let ex_pokemon = Card::Pokemon(ex);
    let trainer = Card::Trainer(sample_trainer());
    assert!(!normal_pokemon.is_ex());
    assert!(ex_pokemon.is_ex());
    assert!(!trainer.is_ex());
}

#[test]
fn test_card_is_support() {
    let pokemon = Card::Pokemon(sample_pokemon());
    let item_trainer = Card::Trainer(sample_trainer());
    let mut sup = sample_trainer();
    sup.id = "A1 223".to_string();
    sup.numeric_id = 223;
    sup.name = "Giovanni".to_string();
    sup.trainer_card_type = TrainerType::Supporter;
    let supporter_trainer = Card::Trainer(sup);
    assert!(!pokemon.is_support());
    assert!(!item_trainer.is_support());
    assert!(supporter_trainer.is_support());
}

#[test]
fn test_card_is_basic() {
    let basic_pokemon = Card::Pokemon(sample_pokemon());
    let mut stage1 = sample_pokemon();
    stage1.id = "A1 002".to_string();
    stage1.name = "Ivysaur".to_string();
    stage1.stage = 1;
    stage1.evolves_from = Some("Bulbasaur".to_string());
    stage1.hp = 90;
    let stage1_pokemon = Card::Pokemon(stage1);
    let trainer = Card::Trainer(sample_trainer());
    assert!(basic_pokemon.is_basic());
    assert!(!stage1_pokemon.is_basic());
    assert!(!trainer.is_basic());
}

#[test]
fn test_card_get_type() {
    let pokemon = Card::Pokemon(sample_pokemon());
    let trainer = Card::Trainer(sample_trainer());
    assert_eq!(pokemon.get_type(), Some(EnergyType::Grass));
    assert_eq!(trainer.get_type(), None);
}

#[test]
fn test_card_get_ability() {
    let pokemon_without_ability = Card::Pokemon(sample_pokemon());
    let mut with_ab = sample_pokemon();
    with_ab.id = "A1 007".to_string();
    with_ab.name = "Butterfree".to_string();
    with_ab.stage = 2;
    with_ab.evolves_from = Some("Metapod".to_string());
    with_ab.hp = 120;
    with_ab.ability = Some(Ability {
        title: "Potent Powder".to_string(),
        effect: "Once during your turn".to_string(),
    });
    let pokemon_with_ability = Card::Pokemon(with_ab);
    assert!(pokemon_without_ability.get_ability().is_none());
    assert!(pokemon_with_ability.get_ability().is_some());
    assert_eq!(pokemon_with_ability.get_ability().unwrap().title, "Potent Powder");
}

#[test]
fn test_card_get_attacks_pokemon() {
    let attack = Attack {
        energy_required: vec![EnergyType::Grass, EnergyType::Colorless],
        title: "Vine Whip".to_string(),
        fixed_damage: 40,
        effect: None,
    };
    let mut pk = sample_pokemon();
    pk.attacks = vec![attack.clone()];
    let pokemon = Card::Pokemon(pk);
    let attacks = pokemon.get_attacks();
    assert_eq!(attacks.len(), 1);
    assert_eq!(attacks[0].title, "Vine Whip");
    assert_eq!(attacks[0].fixed_damage, 40);
}

#[test]
fn test_played_card_heal() {
    let mut played_card = played(Card::Pokemon(sample_pokemon()));
    played_card.remaining_hp = 30;
    played_card.heal(20);
    assert_eq!(played_card.remaining_hp, 50);
    played_card.heal(30);
    assert_eq!(played_card.remaining_hp, 70);
}

#[test]
fn test_played_card_apply_damage() {
    let mut played_card = played(Card::Pokemon(sample_pokemon()));
    played_card.apply_damage(20);
    assert_eq!(played_card.remaining_hp, 50);
    played_card.apply_damage(60);
    assert_eq!(played_card.remaining_hp, 0);
}

#[test]
fn test_played_card_attach_energy() {
    let mut played_card = played(Card::Pokemon(sample_pokemon()));
    played_card.attach_energy(&EnergyType::Grass, 1);
    assert_eq!(played_card.attached_energy.len(), 1);
    assert_eq!(played_card.attached_energy[0], EnergyType::Grass);
    played_card.attach_energy(&EnergyType::Fire, 2);
    assert_eq!(played_card.attached_energy.len(), 3);
    assert_eq!(played_card.attached_energy[1], EnergyType::Fire);
    assert_eq!(played_card.attached_energy[2], EnergyType::Fire);
}

#[test]
fn test_played_card_discard_energy() {
    let mut played_card = played(Card::Pokemon(sample_pokemon()));
    played_card.attached_energy =
        vec![EnergyType::Grass, EnergyType::Fire, EnergyType::Grass];
    played_card.discard_energy(&EnergyType::Grass);
    assert_eq!(played_card.attached_energy.len(), 2);
    assert!(played_card.attached_energy.contains(&EnergyType::Grass));
    assert!(played_card.attached_energy.contains(&EnergyType::Fire));
    played_card.discard_energy(&EnergyType::Water);
    assert_eq!(played_card.attached_energy.len(), 2);
}

#[test]
fn test_played_card_is_damaged() {
    let mut played_card = played(Card::Pokemon(sample_pokemon()));
    assert!(!played_card.is_damaged());
    played_card.remaining_hp = 50;
    assert!(played_card.is_damaged());
}

#[test]
fn test_played_card_has_tool_attached() {
    let mut played_card = played(Card::Pokemon(sample_pokemon()));
    assert!(!played_card.has_tool_attached());
    played_card.attached_tool = Some(ToolId::A2147GiantCape);
    assert!(played_card.has_tool_attached());
}

#[test]
fn test_card_display() {
    let pokemon = Card::Pokemon(sample_pokemon());
    let trainer = Card::Trainer(sample_trainer());
    assert_eq!(pokemon.get_name(), "Bulbasaur");
    assert_eq!(trainer.get_name(), "Potion");
}

#[test]
fn test_status_condition_enum() {
    let _poisoned = StatusCondition::Poisoned;
    let _paralyzed = StatusCondition::Paralyzed;
    let _asleep = StatusCondition::Asleep;
}

#[test]
fn test_trainer_type_enum() {
    assert_eq!(TrainerType::Supporter, TrainerType::Supporter);
    assert_ne!(TrainerType::Supporter, TrainerType::Item);
    assert_ne!(TrainerType::Item, TrainerType::Tool);
}

#[test]
fn test_card_hash() {
    let pokemon = Card::Pokemon(sample_pokemon());
    let trainer = Card::Trainer(sample_trainer());
    let mut set = HashSet::new();
    set.insert(pokemon.clone());
    set.insert(trainer.clone());
    assert_eq!(set.len(), 2);
    assert!(set.contains(&pokemon));
    assert!(set.contains(&trainer));
}

#[test]
fn test_pokemon_card_debug() {
    let pokemon_card = sample_pokemon();
    assert_eq!(pokemon_card.debug_label(), "A1 001 Bulbasaur");
}

#[test]
fn test_trainer_card_debug() {
    let trainer_card = sample_trainer();
    assert_eq!(trainer_card.debug_label(), "P-A 001 Potion");
}

#[test]
fn test_played_card_debug() {
    let mut played_card = played(Card::Pokemon(sample_pokemon()));
    played_card.remaining_hp = 50;
    played_card.attached_energy = vec![EnergyType::Grass, EnergyType::Fire];
    let line = format_card(&Some(played_card));
    assert!(line.contains("Bulbasaur"));
    assert!(line.contains("50hp"));
    assert!(line.contains("2"));
    assert_eq!(format_card(&None), "");
}
