use vstd::prelude::*;
use vstd::string::StringExecFns;
use crate::card_ids::CardId;
use crate::types::{Ability, Attack, Card, EnergyType, PokemonCard, TrainerCard, TrainerType};

verus! {

/// Whether a card identifier names a Pokemon card (as opposed to a trainer).
pub open spec fn spec_id_is_pokemon(id: CardId) -> bool {
    match id {
        CardId::A1001Bulbasaur => true,
        CardId::A1002Ivysaur => true,
        CardId::A1003Venusaur => true,
        CardId::A1004VenusaurEx => true,
        CardId::A1007Butterfree => true,
        CardId::A1033Charmander => true,
        CardId::A1053Squirtle => true,
        CardId::A1132Gardevoir => true,
        CardId::A1141Mankey => true,
        CardId::A1142Primeape => true,
        CardId::A1175Muk => true,
        CardId::A1177Weezing => true,
        CardId::A1186Pidgey => true,
        CardId::A1a025Pikachu => true,
        CardId::A2a071ArceusEx => true,
        CardId::PA017Mankey => true,
        _ => false,
    }
}

/// Whether a card identifier names a Basic Pokemon.
pub open spec fn spec_id_is_basic(id: CardId) -> bool {
    match id {
        CardId::A1001Bulbasaur => true,
        CardId::A1033Charmander => true,
        CardId::A1053Squirtle => true,
        CardId::A1141Mankey => true,
        CardId::A1186Pidgey => true,
        CardId::A1a025Pikachu => true,
        CardId::A2a071ArceusEx => true,
        CardId::PA017Mankey => true,
        _ => false,
    }
}

fn mk_attack(energy_required: Vec<EnergyType>, title: &str, fixed_damage: u32, effect: Option<
    &str,
>) -> (r: Attack)
    ensures
        r.energy_required == energy_required,
        r.fixed_damage == fixed_damage,
{
    Attack {
        energy_required,
        title: String::from_str(title),
        fixed_damage,
        effect: match effect {
            Some(e) => Some(String::from_str(e)),
            None => None,
        },
    }
}

fn mk_ability(title: &str, effect: &str) -> (r: Ability)
    ensures
        r.title@ == title@,
{
    Ability { title: String::from_str(title), effect: String::from_str(effect) }
}

#[allow(clippy::too_many_arguments)]
fn mk_pokemon(
    id: &str,
    name: &str,
    stage: u8,
    evolves_from: Option<&str>,
    hp: u32,
    energy_type: EnergyType,
    ability: Option<Ability>,
    attacks: Vec<Attack>,
    weakness: Option<EnergyType>,
    retreat_cost: Vec<EnergyType>,
    rarity: &str,
    booster_pack: &str,
) -> (r: Card)
    requires
        hp > 0,
    ensures
        r matches Card::Pokemon(p) && p.id@ == id@ && p.name@ == name@ && p.stage == stage && p.hp
            == hp && p.energy_type == energy_type && p.ability == ability && p.attacks == attacks
            && p.weakness == weakness,
{
    Card::Pokemon(
        PokemonCard {
            id: String::from_str(id),
            name: String::from_str(name),
            stage,
            evolves_from: match evolves_from {
                Some(n) => Some(String::from_str(n)),
                None => None,
            },
            hp,
            energy_type,
            ability,
            attacks,
            weakness,
            retreat_cost,
            rarity: String::from_str(rarity),
            booster_pack: String::from_str(booster_pack),
        },
    )
}

fn mk_trainer(
    id: &str,
    numeric_id: u16,
    name: &str,
    trainer_card_type: TrainerType,
    effect: &str,
    rarity: &str,
    booster_pack: &str,
) -> (r: Card)
    ensures
        r matches Card::Trainer(t) && t.id@ == id@ && t.numeric_id == numeric_id && t.name@
            == name@ && t.trainer_card_type == trainer_card_type,
{
    Card::Trainer(
        TrainerCard {
            id: String::from_str(id),
            numeric_id,
            name: String::from_str(name),
            trainer_card_type,
            effect: String::from_str(effect),
            rarity: String::from_str(rarity),
            booster_pack: String::from_str(booster_pack),
        },
    )
}

/// The static card catalog: an immutable descriptor for every known identifier.
pub fn get_card_by_enum(card_id: CardId) -> (r: Card)
    ensures
        (r is Pokemon) == spec_id_is_pokemon(card_id),
        r.spec_is_basic() == spec_id_is_basic(card_id),
        r matches Card::Pokemon(p) ==> p.hp > 0,
        r matches Card::Trainer(t) ==> t.numeric_id == card_id.spec_numeric_id(),
{
    match card_id {
        CardId::A1001Bulbasaur => mk_pokemon(
            "A1 001",
            "Bulbasaur",
            0,
            None,
            70,
            EnergyType::Grass,
            None,
            vec![
                mk_attack(
                    vec![EnergyType::Grass, EnergyType::Colorless],
                    "Vine Whip",
                    40,
                    None,
                ),
            ],
            Some(EnergyType::Fire),
            vec![EnergyType::Colorless],
            "\u{25ca}",
            "Genetic Apex (A1)",
        ),
        CardId::A1002Ivysaur => mk_pokemon(
            "A1 002",
            "Ivysaur",
            1,
            Some("Bulbasaur"),
            90,
            EnergyType::Grass,
            None,
            vec![
                mk_attack(
                    vec![EnergyType::Grass, EnergyType::Colorless, EnergyType::Colorless],
                    "Razor Leaf",
                    60,
                    None,
                ),
            ],
            Some(EnergyType::Fire),
            vec![EnergyType::Colorless, EnergyType::Colorless],
            "\u{25ca}\u{25ca}",
            "Genetic Apex (A1)",
        ),
        CardId::A1003Venusaur => mk_pokemon(
            "A1 003",
            "Venusaur",
            2,
            Some("Ivysaur"),
            160,
            EnergyType::Grass,
            None,
            vec![
                mk_attack(
                    vec![
                        EnergyType::Grass,
                        EnergyType::Grass,
                        EnergyType::Colorless,
                        EnergyType::Colorless,
                    ],
                    "Mega Drain",
                    80,
                    Some("Heal 30 damage from this Pokemon."),
                ),
            ],
            Some(EnergyType::Fire),
            vec![EnergyType::Colorless, EnergyType::Colorless, EnergyType::Colorless],
            "\u{25ca}\u{25ca}\u{25ca}",
            "Genetic Apex (A1)",
        ),
        CardId::A1004VenusaurEx => mk_pokemon(
            "A1 004",
            "Venusaur ex",
            2,
            Some("Ivysaur"),
            190,
            EnergyType::Grass,
            None,
            vec![
                mk_attack(
                    vec![EnergyType::Grass, EnergyType::Colorless, EnergyType::Colorless],
                    "Razor Leaf",
                    60,
                    None,
                ),
                mk_attack(
                    vec![
                        EnergyType::Grass,
                        EnergyType::Grass,
                        EnergyType::Colorless,
                        EnergyType::Colorless,
                    ],
                    "Giant Bloom",
                    100,
                    Some("Heal 30 damage from this Pokemon."),
                ),
            ],
            Some(EnergyType::Fire),
            vec![EnergyType::Colorless, EnergyType::Colorless, EnergyType::Colorless],
            "\u{25ca}\u{25ca}\u{25ca}\u{25ca}",
            "Genetic Apex (A1)",
        ),
        CardId::A1007Butterfree => mk_pokemon(
            "A1 007",
            "Butterfree",
            2,
            Some("Metapod"),
            120,
            EnergyType::Grass,
            Some(
                mk_ability(
                    "Powder Heal",
                    "Once during your turn, you may heal 20 damage from each of your Pokemon.",
                ),
            ),
            vec![
                mk_attack(
                    vec![EnergyType::Grass, EnergyType::Colorless, EnergyType::Colorless],
                    "Gust",
                    60,
                    None,
                ),
            ],
            Some(EnergyType::Fire),
            vec![EnergyType::Colorless],
            "\u{25ca}\u{25ca}\u{25ca}",
            "Genetic Apex (A1)",
        ),
        CardId::A1033Charmander => mk_pokemon(
            "A1 033",
            "Charmander",
            0,
            None,
            60,
            EnergyType::Fire,
            None,
            vec![
                mk_attack(
                    vec![EnergyType::Fire],
                    "Ember",
                    30,
                    Some("Discard a Fire Energy from this Pokemon."),
                ),
            ],
            Some(EnergyType::Water),
            vec![EnergyType::Colorless],
            "\u{25ca}",
            "Genetic Apex (A1)",
        ),
        CardId::A1053Squirtle => mk_pokemon(
            "A1 053",
            "Squirtle",
            0,
            None,
            60,
            EnergyType::Water,
            None,
            vec![mk_attack(vec![EnergyType::Water], "Water Gun", 20, None)],
            Some(EnergyType::Lightning),
            vec![EnergyType::Colorless],
            "\u{25ca}",
            "Genetic Apex (A1)",
        ),
        CardId::A1132Gardevoir => mk_pokemon(
            "A1 132",
            "Gardevoir",
            2,
            Some("Kirlia"),
            110,
            EnergyType::Psychic,
            Some(
                mk_ability(
                    "Psy Shadow",
                    "Once during your turn, you may attach a Psychic Energy to your active Pokemon.",
                ),
            ),
            vec![
                mk_attack(
                    vec![EnergyType::Psychic, EnergyType::Psychic, EnergyType::Colorless],
                    "Psyshot",
                    60,
                    None,
                ),
            ],
            Some(EnergyType::Darkness),
            vec![EnergyType::Colorless, EnergyType::Colorless],
            "\u{25ca}\u{25ca}\u{25ca}",
            "Genetic Apex (A1)",
        ),
        CardId::A1141Mankey => mk_pokemon(
            "A1 141",
            "Mankey",
            0,
            None,
            50,
            EnergyType::Fighting,
            None,
            vec![mk_attack(vec![EnergyType::Fighting], "Scratch", 20, None)],
            Some(EnergyType::Psychic),
            vec![EnergyType::Colorless],
            "\u{25ca}",
            "Genetic Apex (A1)",
        ),
        CardId::A1142Primeape => mk_pokemon(
            "A1 142",
            "Primeape",
            1,
            Some("Mankey"),
            90,
            EnergyType::Fighting,
            None,
            vec![
                mk_attack(
                    vec![EnergyType::Fighting, EnergyType::Fighting, EnergyType::Colorless],
                    "Fight Back",
                    40,
                    None,
                ),
            ],
            Some(EnergyType::Psychic),
            vec![EnergyType::Colorless],
            "\u{25ca}\u{25ca}",
            "Genetic Apex (A1)",
        ),
        CardId::A1175Muk => mk_pokemon(
            "A1 175",
            "Muk",
            1,
            Some("Grimer"),
            120,
            EnergyType::Darkness,
            None,
            vec![
                mk_attack(
                    vec![EnergyType::Darkness, EnergyType::Darkness, EnergyType::Colorless],
                    "Venoshock",
                    70,
                    None,
                ),
            ],
            Some(EnergyType::Fighting),
            vec![EnergyType::Colorless, EnergyType::Colorless],
            "\u{25ca}\u{25ca}\u{25ca}",
            "Genetic Apex (A1)",
        ),
        CardId::A1177Weezing => mk_pokemon(
            "A1 177",
            "Weezing",
            1,
            Some("Koffing"),
            110,
            EnergyType::Darkness,
            Some(
                mk_ability(
                    "Gas Leak",
                    "Once during your turn, if this Pokemon is in the Active Spot, you may make your opponent's Active Pokemon Poisoned.",
                ),
            ),
            vec![
                mk_attack(
                    vec![EnergyType::Darkness, EnergyType::Colorless],
                    "Tackle",
                    30,
                    None,
                ),
            ],
            Some(EnergyType::Fighting),
            vec![EnergyType::Colorless, EnergyType::Colorless],
            "\u{25ca}\u{25ca}\u{25ca}",
            "Genetic Apex (A1)",
        ),
        CardId::A1186Pidgey => mk_pokemon(
            "A1 186",
            "Pidgey",
            0,
            None,
            60,
            EnergyType::Colorless,
            None,
            vec![mk_attack(vec![EnergyType::Colorless], "Gust", 10, None)],
            Some(EnergyType::Lightning),
            vec![EnergyType::Colorless],
            "\u{25ca}",
            "Genetic Apex (A1)",
        ),
        CardId::A1219Erika | CardId::A1266Erika => mk_trainer(
            if matches!(card_id, CardId::A1219Erika) {
                "A1 219"
            } else {
                "A1 266"
            },
            if matches!(card_id, CardId::A1219Erika) {
                219
            } else {
                266
            },
            "Erika",
            TrainerType::Supporter,
            "Heal 50 damage from 1 of your Grass Pokemon.",
            "\u{25ca}\u{25ca}",
            "Genetic Apex (A1)",
        ),
        CardId::A1220Misty | CardId::A1267Misty => mk_trainer(
            if matches!(card_id, CardId::A1220Misty) {
                "A1 220"
            } else {
                "A1 267"
            },
            if matches!(card_id, CardId::A1220Misty) {
                220
            } else {
                267
            },
            "Misty",
            TrainerType::Supporter,
            "Choose 1 of your Water Pokemon. Flip a coin until you get tails; for each heads, attach a Water Energy to it.",
            "\u{25ca}\u{25ca}",
            "Genetic Apex (A1)",
        ),
        CardId::A1222Koga | CardId::A1269Koga => mk_trainer(
            if matches!(card_id, CardId::A1222Koga) {
                "A1 222"
            } else {
                "A1 269"
            },
            if matches!(card_id, CardId::A1222Koga) {
                222
            } else {
                269
            },
            "Koga",
            TrainerType::Supporter,
            "Put your Muk or Weezing in the Active Spot into your hand.",
            "\u{25ca}\u{25ca}",
            "Genetic Apex (A1)",
        ),
        CardId::A1223Giovanni | CardId::A1270Giovanni => mk_trainer(
            if matches!(card_id, CardId::A1223Giovanni) {
                "A1 223"
            } else {
                "A1 270"
            },
            if matches!(card_id, CardId::A1223Giovanni) {
                223
            } else {
                270
            },
            "Giovanni",
            TrainerType::Supporter,
            "During this turn, attacks used by your Pokemon do +10 damage to your opponent's Active Pokemon.",
            "\u{25ca}\u{25ca}",
            "Genetic Apex (A1)",
        ),
        CardId::A1225Sabrina | CardId::A1272Sabrina => mk_trainer(
            if matches!(card_id, CardId::A1225Sabrina) {
                "A1 225"
            } else {
                "A1 272"
            },
            if matches!(card_id, CardId::A1225Sabrina) {
                225
            } else {
                272
            },
            "Sabrina",
            TrainerType::Supporter,
            "Switch out your opponent's Active Pokemon to the Bench. Your opponent chooses the new Active Pokemon.",
            "\u{25ca}\u{25ca}",
            "Genetic Apex (A1)",
        ),
        CardId::A1a025Pikachu => mk_pokemon(
            "A1a 025",
            "Pikachu",
            0,
            None,
            60,
            EnergyType::Lightning,
            None,
            vec![mk_attack(vec![EnergyType::Lightning], "Gnaw", 20, None)],
            None,
            vec![EnergyType::Colorless],
            "\u{25ca}",
            "Mythical Island (A1a)",
        ),
        CardId::A1a065MythicalSlab => mk_trainer(
            "A1a 065",
            365,
            "Mythical Slab",
            TrainerType::Item,
            "Look at the top card of your deck. If it is a Psychic Pokemon, put it into your hand; if not, put it on the bottom of your deck.",
            "\u{25ca}\u{25ca}",
            "Mythical Island (A1a)",
        ),
        CardId::A1a068Leaf | CardId::A1a082Leaf => mk_trainer(
            if matches!(card_id, CardId::A1a068Leaf) {
                "A1a 068"
            } else {
                "A1a 082"
            },
            if matches!(card_id, CardId::A1a068Leaf) {
                368
            } else {
                382
            },
            "Leaf",
            TrainerType::Supporter,
            "During this turn, the Retreat Cost of your Active Pokemon is 2 less.",
            "\u{25ca}\u{25ca}",
            "Mythical Island (A1a)",
        ),
        CardId::A2147GiantCape => mk_trainer(
            "A2 147",
            547,
            "Giant Cape",
            TrainerType::Tool,
            "The Pokemon this card is attached to gets +20 HP.",
            "\u{25ca}\u{25ca}",
            "Space-Time Smackdown (A2)",
        ),
        CardId::A2150Cyrus | CardId::A2190Cyrus => mk_trainer(
            if matches!(card_id, CardId::A2150Cyrus) {
                "A2 150"
            } else {
                "A2 190"
            },
            if matches!(card_id, CardId::A2150Cyrus) {
                550
            } else {
                590
            },
            "Cyrus",
            TrainerType::Supporter,
            "Switch in 1 of your opponent's damaged Pokemon to the Active Spot.",
            "\u{25ca}\u{25ca}",
            "Space-Time Smackdown (A2)",
        ),
        CardId::A2a071ArceusEx => mk_pokemon(
            "A2a 071",
            "Arceus ex",
            0,
            None,
            150,
            EnergyType::Colorless,
            Some(
                mk_ability(
                    "Fabled Luster",
                    "This Pokemon takes no effects of attacks used by the opponent. This ability cannot be activated.",
                ),
            ),
            vec![
                mk_attack(
                    vec![EnergyType::Colorless, EnergyType::Colorless, EnergyType::Colorless],
                    "Ultimate Force",
                    70,
                    None,
                ),
            ],
            Some(EnergyType::Fighting),
            vec![EnergyType::Colorless, EnergyType::Colorless],
            "\u{25ca}\u{25ca}\u{25ca}\u{25ca}",
            "Shining Revelry (A2a)",
        ),
        CardId::PA001Potion => mk_trainer(
            "P-A 001",
            901,
            "Potion",
            TrainerType::Item,
            "Heal 20 damage from 1 of your Pokemon.",
            "\u{25ca}",
            "Promo-A",
        ),
        CardId::PA002XSpeed => mk_trainer(
            "P-A 002",
            902,
            "X Speed",
            TrainerType::Item,
            "During this turn, the Retreat Cost of your Active Pokemon is 1 less.",
            "\u{25ca}",
            "Promo-A",
        ),
        CardId::PA005PokeBall => mk_trainer(
            "P-A 005",
            905,
            "Poke Ball",
            TrainerType::Item,
            "Put 1 random Basic Pokemon from your deck into your hand.",
            "\u{25ca}",
            "Promo-A",
        ),
        CardId::PA006RedCard => mk_trainer(
            "P-A 006",
            906,
            "Red Card",
            TrainerType::Item,
            "Your opponent shuffles their hand into their deck and draws 3 cards.",
            "\u{25ca}",
            "Promo-A",
        ),
        CardId::PA007ProfessorsResearch => mk_trainer(
            "P-A 007",
            907,
            "Professor's Research",
            TrainerType::Supporter,
            "Draw 2 cards.",
            "\u{25ca}",
            "Promo-A",
        ),
        CardId::PA010RockyHelmet => mk_trainer(
            "P-A 010",
            910,
            "Rocky Helmet",
            TrainerType::Tool,
            "If the Pokemon this card is attached to is damaged by an attack, do 20 damage to the attacking Pokemon.",
            "\u{25ca}",
            "Promo-A",
        ),
        CardId::PA017Mankey => mk_pokemon(
            "P-A 017",
            "Mankey",
            0,
            None,
            50,
            EnergyType::Fighting,
            None,
            vec![mk_attack(vec![EnergyType::Fighting], "Scratch", 20, None)],
            Some(EnergyType::Psychic),
            vec![EnergyType::Colorless],
            "\u{25ca}",
            "Promo-A",
        ),
    }
}

} // verus!
