use vstd::prelude::*;
use crate::types::{str_eq, Card};

verus! {

/// The abilities the engine implements, identified by their printed title.
#[derive(Debug, Clone, Copy, PartialEq, Eq, Hash, Structural)]
pub enum AbilityId {
    /// Butterfree: heal 20 damage from each of your Pokemon.
    PowderHeal,
    /// Gardevoir: attach a Psychic energy to your active Pokemon.
    PsyShadow,
    /// Weezing: while in the active spot, poison the opposing active Pokemon.
    GasLeak,
    /// Arceus: a passive ability; it can never be activated by the player.
    FabledLuster,
}

/// The ability, if any, that a title names.
pub open spec fn spec_ability_of_title(title: Seq<char>) -> Option<AbilityId> {
    if title == "Powder Heal"@ {
        Some(AbilityId::PowderHeal)
    } else if title == "Psy Shadow"@ {
        Some(AbilityId::PsyShadow)
    } else if title == "Gas Leak"@ {
        Some(AbilityId::GasLeak)
    } else if title == "Fabled Luster"@ {
        Some(AbilityId::FabledLuster)
    } else {
        None
    }
}

impl AbilityId {
    /// Looks up the ability a card declares, by its printed title.
    pub fn from_card(card: &Card) -> (r: Option<AbilityId>)
        ensures
            match card {
                Card::Pokemon(p) => match p.ability {
                    Some(a) => r == spec_ability_of_title(a.title@),
                    None => r is None,
                },
                Card::Trainer(_) => r is None,
            },
    {
        match card {
            Card::Pokemon(p) => match &p.ability {
                Some(a) => {
                    let title = a.title.as_str();
                    if str_eq(title, "Powder Heal") {
                        Some(AbilityId::PowderHeal)
                    } else if str_eq(title, "Psy Shadow") {
                        Some(AbilityId::PsyShadow)
                    } else if str_eq(title, "Gas Leak") {
                        Some(AbilityId::GasLeak)
                    } else if str_eq(title, "Fabled Luster") {
                        Some(AbilityId::FabledLuster)
                    } else {
                        None
                    }
                },
                None => None,
            },
            Card::Trainer(_) => None,
        }
    }
}

} // verus!
