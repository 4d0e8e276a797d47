use vstd::prelude::*;
use crate::types::str_eq;

verus! {

/// The attack effects the engine implements, identified by the printed
/// attack title.
#[derive(Debug, Clone, Copy, PartialEq, Eq, Hash, Structural)]
pub enum AttackId {
    /// Mega Drain and Giant Bloom: heal 30 damage from the attacker.
    HealThirtyFromSelf,
    /// Ember: discard a Fire energy from the attacker.
    DiscardFireFromSelf,
}

/// The attack effect, if any, that a printed attack title carries.
pub open spec fn spec_attack_id(title: Seq<char>) -> Option<AttackId> {
    if title == "Mega Drain"@ || title == "Giant Bloom"@ {
        Some(AttackId::HealThirtyFromSelf)
    } else if title == "Ember"@ {
        Some(AttackId::DiscardFireFromSelf)
    } else {
        None
    }
}

impl AttackId {
    /// Looks up the effect an attack title carries.
    pub fn from_title(title: &str) -> (r: Option<AttackId>)
        ensures
            r == spec_attack_id(title@),
    {
        if str_eq(title, "Mega Drain") || str_eq(title, "Giant Bloom") {
            Some(AttackId::HealThirtyFromSelf)
        } else if str_eq(title, "Ember") {
            Some(AttackId::DiscardFireFromSelf)
        } else {
            None
        }
    }
}

} // verus!
