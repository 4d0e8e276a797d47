use vstd::prelude::*;
use crate::card_ids::CardId;
use crate::database::get_card_by_enum;
use crate::deck::Deck;
use crate::types::{Card, EnergyType};

verus! {

/// A pair of ready-made twenty-card decks for exercising the engine: a
/// Grass line and a Fighting line, each declaring a single energy type and
/// holding Basic Pokemon.
pub fn load_test_decks() -> (r: (Deck, Deck))
    ensures
        r.0@.cards.len() == 20,
        r.1@.cards.len() == 20,
        r.0@.energy_types =~= seq![EnergyType::Grass],
        r.1@.energy_types =~= seq![EnergyType::Fighting],
        crate::deck::has_basic_among(r.0@.cards, r.0@.cards.len() as int),
        crate::deck::has_basic_among(r.1@.cards, r.1@.cards.len() as int),
{
    let mut a: Vec<Card> = Vec::new();
    a.push(get_card_by_enum(CardId::A1001Bulbasaur));
    proof {
        assert(a@[0].spec_is_basic());
    }
    a.push(get_card_by_enum(CardId::A1001Bulbasaur));
    a.push(get_card_by_enum(CardId::A1002Ivysaur));
    a.push(get_card_by_enum(CardId::A1002Ivysaur));
    a.push(get_card_by_enum(CardId::A1003Venusaur));
    a.push(get_card_by_enum(CardId::A1004VenusaurEx));
    a.push(get_card_by_enum(CardId::A1186Pidgey));
    a.push(get_card_by_enum(CardId::A1186Pidgey));
    a.push(get_card_by_enum(CardId::PA001Potion));
    a.push(get_card_by_enum(CardId::PA001Potion));
    a.push(get_card_by_enum(CardId::PA005PokeBall));
    a.push(get_card_by_enum(CardId::PA005PokeBall));
    a.push(get_card_by_enum(CardId::PA007ProfessorsResearch));
    a.push(get_card_by_enum(CardId::PA007ProfessorsResearch));
    a.push(get_card_by_enum(CardId::A1223Giovanni));
    a.push(get_card_by_enum(CardId::A1225Sabrina));
    a.push(get_card_by_enum(CardId::A1219Erika));
    a.push(get_card_by_enum(CardId::PA002XSpeed));
    a.push(get_card_by_enum(CardId::PA006RedCard));
    a.push(get_card_by_enum(CardId::A1a068Leaf));
    let mut ae: Vec<EnergyType> = Vec::new();
    ae.push(EnergyType::Grass);
    let mut b: Vec<Card> = Vec::new();
    b.push(get_card_by_enum(CardId::A1141Mankey));
    proof {
        assert(b@[0].spec_is_basic());
    }
    b.push(get_card_by_enum(CardId::A1141Mankey));
    b.push(get_card_by_enum(CardId::A1142Primeape));
    b.push(get_card_by_enum(CardId::A1142Primeape));
    b.push(get_card_by_enum(CardId::PA017Mankey));
    b.push(get_card_by_enum(CardId::A1186Pidgey));
    b.push(get_card_by_enum(CardId::A1186Pidgey));
    b.push(get_card_by_enum(CardId::A1177Weezing));
    b.push(get_card_by_enum(CardId::A1177Weezing));
    b.push(get_card_by_enum(CardId::PA001Potion));
    b.push(get_card_by_enum(CardId::PA001Potion));
    b.push(get_card_by_enum(CardId::PA005PokeBall));
    b.push(get_card_by_enum(CardId::PA005PokeBall));
    b.push(get_card_by_enum(CardId::PA007ProfessorsResearch));
    b.push(get_card_by_enum(CardId::PA007ProfessorsResearch));
    b.push(get_card_by_enum(CardId::A1222Koga));
    b.push(get_card_by_enum(CardId::A1223Giovanni));
    b.push(get_card_by_enum(CardId::A2150Cyrus));
    b.push(get_card_by_enum(CardId::A2147GiantCape));
    b.push(get_card_by_enum(CardId::PA010RockyHelmet));
    let mut be: Vec<EnergyType> = Vec::new();
    be.push(EnergyType::Fighting);
    let da = Deck { cards: a, energy_types: ae };
    let db = Deck { cards: b, energy_types: be };
    proof {
        assert(da@.energy_types =~= seq![EnergyType::Grass]);
        assert(db@.energy_types =~= seq![EnergyType::Fighting]);
        assert(da@.cards[0].spec_is_basic());
        assert(db@.cards[0].spec_is_basic());
    }
    (da, db)
}

} // verus!
