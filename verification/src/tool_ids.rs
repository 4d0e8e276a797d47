use vstd::prelude::*;
use crate::types::TrainerCard;

verus! {

/// Identifiers of the tool cards the engine implements.
#[derive(Debug, Clone, Copy, PartialEq, Eq, Hash, Structural)]
pub enum ToolId {
    A2147GiantCape,
    PA010RockyHelmet,
}

impl ToolId {
    /// The numeric identifier of the trainer card this tool corresponds to.
    pub open spec fn spec_numeric_id(self) -> u16 {
        match self {
            ToolId::A2147GiantCape => 547,
            ToolId::PA010RockyHelmet => 910,
        }
    }

    /// Looks the tool up by the numeric identifier of a trainer card.
    pub fn from_trainer_card(trainer_card: &TrainerCard) -> (r: Option<ToolId>)
        ensures
            r == spec_tool_of_id(trainer_card.numeric_id),
    {
        if trainer_card.numeric_id == 547 {
            Some(ToolId::A2147GiantCape)
        } else if trainer_card.numeric_id == 910 {
            Some(ToolId::PA010RockyHelmet)
        } else {
            None
        }
    }
}

/// The tool a trainer card's numeric identifier names, if the engine
/// implements it.
pub open spec fn spec_tool_of_id(numeric_id: u16) -> Option<ToolId> {
    if numeric_id == 547 {
        Some(ToolId::A2147GiantCape)
    } else if numeric_id == 910 {
        Some(ToolId::PA010RockyHelmet)
    } else {
        None
    }
}

} // verus!
