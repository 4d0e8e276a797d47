use vstd::prelude::*;

verus! {

/// The closed enumeration of card identifiers the engine knows:
/// set prefix, zero-padded collection number, and canonical name.
#[derive(Debug, Clone, Copy, PartialEq, Eq, Hash, Structural)]
pub enum CardId {
    A1001Bulbasaur,
    A1002Ivysaur,
    A1003Venusaur,
    A1004VenusaurEx,
    A1007Butterfree,
    A1033Charmander,
    A1053Squirtle,
    A1132Gardevoir,
    A1141Mankey,
    A1142Primeape,
    A1175Muk,
    A1177Weezing,
    A1186Pidgey,
    A1219Erika,
    A1220Misty,
    A1222Koga,
    A1223Giovanni,
    A1225Sabrina,
    A1266Erika,
    A1267Misty,
    A1269Koga,
    A1270Giovanni,
    A1272Sabrina,
    A1a025Pikachu,
    A1a065MythicalSlab,
    A1a068Leaf,
    A1a082Leaf,
    A2147GiantCape,
    A2150Cyrus,
    A2190Cyrus,
    A2a071ArceusEx,
    PA001Potion,
    PA002XSpeed,
    PA005PokeBall,
    PA006RedCard,
    PA007ProfessorsResearch,
    PA010RockyHelmet,
    PA017Mankey,
}

impl CardId {
    /// The stable numeric identifier of the card: the collection number,
    /// offset by a constant per set so that sets do not collide.
    pub open spec fn spec_numeric_id(self) -> u16 {
        match self {
            CardId::A1001Bulbasaur => 1,
            CardId::A1002Ivysaur => 2,
            CardId::A1003Venusaur => 3,
            CardId::A1004VenusaurEx => 4,
            CardId::A1007Butterfree => 7,
            CardId::A1033Charmander => 33,
            CardId::A1053Squirtle => 53,
            CardId::A1132Gardevoir => 132,
            CardId::A1141Mankey => 141,
            CardId::A1142Primeape => 142,
            CardId::A1175Muk => 175,
            CardId::A1177Weezing => 177,
            CardId::A1186Pidgey => 186,
            CardId::A1219Erika => 219,
            CardId::A1220Misty => 220,
            CardId::A1222Koga => 222,
            CardId::A1223Giovanni => 223,
            CardId::A1225Sabrina => 225,
            CardId::A1266Erika => 266,
            CardId::A1267Misty => 267,
            CardId::A1269Koga => 269,
            CardId::A1270Giovanni => 270,
            CardId::A1272Sabrina => 272,
            CardId::A1a025Pikachu => 325,
            CardId::A1a065MythicalSlab => 365,
            CardId::A1a068Leaf => 368,
            CardId::A1a082Leaf => 382,
            CardId::A2147GiantCape => 547,
            CardId::A2150Cyrus => 550,
            CardId::A2190Cyrus => 590,
            CardId::A2a071ArceusEx => 771,
            CardId::PA001Potion => 901,
            CardId::PA002XSpeed => 902,
            CardId::PA005PokeBall => 905,
            CardId::PA006RedCard => 906,
            CardId::PA007ProfessorsResearch => 907,
            CardId::PA010RockyHelmet => 910,
            CardId::PA017Mankey => 917,
        }
    }

    /// The stable numeric identifier of the card.
    pub fn numeric_id(&self) -> (r: u16)
        ensures
            r == self.spec_numeric_id(),
    {
        match self {
            CardId::A1001Bulbasaur => 1,
            CardId::A1002Ivysaur => 2,
            CardId::A1003Venusaur => 3,
            CardId::A1004VenusaurEx => 4,
            CardId::A1007Butterfree => 7,
            CardId::A1033Charmander => 33,
            CardId::A1053Squirtle => 53,
            CardId::A1132Gardevoir => 132,
            CardId::A1141Mankey => 141,
            CardId::A1142Primeape => 142,
            CardId::A1175Muk => 175,
            CardId::A1177Weezing => 177,
            CardId::A1186Pidgey => 186,
            CardId::A1219Erika => 219,
            CardId::A1220Misty => 220,
            CardId::A1222Koga => 222,
            CardId::A1223Giovanni => 223,
            CardId::A1225Sabrina => 225,
            CardId::A1266Erika => 266,
            CardId::A1267Misty => 267,
            CardId::A1269Koga => 269,
            CardId::A1270Giovanni => 270,
            CardId::A1272Sabrina => 272,
            CardId::A1a025Pikachu => 325,
            CardId::A1a065MythicalSlab => 365,
            CardId::A1a068Leaf => 368,
            CardId::A1a082Leaf => 382,
            CardId::A2147GiantCape => 547,
            CardId::A2150Cyrus => 550,
            CardId::A2190Cyrus => 590,
            CardId::A2a071ArceusEx => 771,
            CardId::PA001Potion => 901,
            CardId::PA002XSpeed => 902,
            CardId::PA005PokeBall => 905,
            CardId::PA006RedCard => 906,
            CardId::PA007ProfessorsResearch => 907,
            CardId::PA010RockyHelmet => 910,
            CardId::PA017Mankey => 917,
        }
    }

    /// Looks a card identifier up by its stable numeric identifier.
    pub fn from_numeric_id(n: u16) -> (r: Option<CardId>)
        ensures
            match r {
                Some(c) => c.spec_numeric_id() == n,
                None => forall|c: CardId| c.spec_numeric_id() != n,
            },
    {
        match n {
            1u16 => Some(CardId::A1001Bulbasaur),
            2u16 => Some(CardId::A1002Ivysaur),
            3u16 => Some(CardId::A1003Venusaur),
            4u16 => Some(CardId::A1004VenusaurEx),
            7u16 => Some(CardId::A1007Butterfree),
            33u16 => Some(CardId::A1033Charmander),
            53u16 => Some(CardId::A1053Squirtle),
            132u16 => Some(CardId::A1132Gardevoir),
            141u16 => Some(CardId::A1141Mankey),
            142u16 => Some(CardId::A1142Primeape),
            175u16 => Some(CardId::A1175Muk),
            177u16 => Some(CardId::A1177Weezing),
            186u16 => Some(CardId::A1186Pidgey),
            219u16 => Some(CardId::A1219Erika),
            220u16 => Some(CardId::A1220Misty),
            222u16 => Some(CardId::A1222Koga),
            223u16 => Some(CardId::A1223Giovanni),
            225u16 => Some(CardId::A1225Sabrina),
            266u16 => Some(CardId::A1266Erika),
            267u16 => Some(CardId::A1267Misty),
            269u16 => Some(CardId::A1269Koga),
            270u16 => Some(CardId::A1270Giovanni),
            272u16 => Some(CardId::A1272Sabrina),
            325u16 => Some(CardId::A1a025Pikachu),
            365u16 => Some(CardId::A1a065MythicalSlab),
            368u16 => Some(CardId::A1a068Leaf),
            382u16 => Some(CardId::A1a082Leaf),
            547u16 => Some(CardId::A2147GiantCape),
            550u16 => Some(CardId::A2150Cyrus),
            590u16 => Some(CardId::A2190Cyrus),
            771u16 => Some(CardId::A2a071ArceusEx),
            901u16 => Some(CardId::PA001Potion),
            902u16 => Some(CardId::PA002XSpeed),
            905u16 => Some(CardId::PA005PokeBall),
            906u16 => Some(CardId::PA006RedCard),
            907u16 => Some(CardId::PA007ProfessorsResearch),
            910u16 => Some(CardId::PA010RockyHelmet),
            917u16 => Some(CardId::PA017Mankey),
            _ => None,
        }
    }
}

} // verus!
