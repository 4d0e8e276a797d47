use vstd::prelude::*;
use crate::tool_ids::ToolId;
use crate::types::{Card, CardV, EnergyType, TrainerCard, TrainerCardV};

verus! {

/// One legal move, before it is addressed to an actor.
///
/// Sub-decision frames on the move-generation stack hold these directly, so
/// that search agents can inspect pending decisions as plain data.
#[derive(Debug, PartialEq, Eq, Hash)]
pub enum SimpleAction {
    /// Draw the top card of the actor's deck.
    DrawCard,
    /// Put a Basic Pokemon from hand into the given in-play slot.
    Place(Card, usize),
    /// Evolve the Pokemon in the given slot with a card from hand.
    Evolve(Card, usize),
    /// Attach energy: for each entry, `amount` energy of a type to a slot.
    Attach { attachments: Vec<(u32, EnergyType, usize)>, is_turn_energy: bool },
    /// Attach a tool card to the Pokemon in the given slot.
    AttachTool { in_play_idx: usize, tool_id: ToolId },
    /// Use the ability of the Pokemon in the given slot.
    UseAbility(usize),
    /// Move the Pokemon in the given bench slot to the active spot for free.
    Activate { in_play_idx: usize },
    /// Retreat: swap the active with the given bench slot, paying the cost.
    Retreat(usize),
    /// Deal damage: for each entry, `amount` to the opposing Pokemon in a slot.
    ApplyDamage { targets: Vec<(u32, usize)> },
    /// Heal the Pokemon in the given slot.
    Heal { in_play_idx: usize, amount: u32 },
    /// Use the attack with the given index of the active Pokemon.
    Attack(usize),
    /// Play a trainer card from hand.
    Play { trainer_card: TrainerCard },
    /// End the turn.
    EndTurn,
}

/// Mathematical image of a [`SimpleAction`].
#[verifier::ext_equal]
pub ghost enum SimpleActionV {
    DrawCard,
    Place(CardV, usize),
    Evolve(CardV, usize),
    Attach { attachments: Seq<(u32, EnergyType, usize)>, is_turn_energy: bool },
    AttachTool { in_play_idx: usize, tool_id: ToolId },
    UseAbility(usize),
    Activate { in_play_idx: usize },
    Retreat(usize),
    ApplyDamage { targets: Seq<(u32, usize)> },
    Heal { in_play_idx: usize, amount: u32 },
    Attack(usize),
    Play { trainer_card: TrainerCardV },
    EndTurn,
}

impl View for SimpleAction {
    type V = SimpleActionV;

    open spec fn view(&self) -> SimpleActionV {
        match self {
            SimpleAction::DrawCard => SimpleActionV::DrawCard,
            SimpleAction::Place(card, idx) => SimpleActionV::Place(card@, *idx),
            SimpleAction::Evolve(card, idx) => SimpleActionV::Evolve(card@, *idx),
            SimpleAction::Attach { attachments, is_turn_energy } => SimpleActionV::Attach {
                attachments: attachments@,
                is_turn_energy: *is_turn_energy,
            },
            SimpleAction::AttachTool { in_play_idx, tool_id } => SimpleActionV::AttachTool {
                in_play_idx: *in_play_idx,
                tool_id: *tool_id,
            },
            SimpleAction::UseAbility(idx) => SimpleActionV::UseAbility(*idx),
            SimpleAction::Activate { in_play_idx } => SimpleActionV::Activate {
                in_play_idx: *in_play_idx,
            },
            SimpleAction::Retreat(idx) => SimpleActionV::Retreat(*idx),
            SimpleAction::ApplyDamage { targets } => SimpleActionV::ApplyDamage {
                targets: targets@,
            },
            SimpleAction::Heal { in_play_idx, amount } => SimpleActionV::Heal {
                in_play_idx: *in_play_idx,
                amount: *amount,
            },
            SimpleAction::Attack(idx) => SimpleActionV::Attack(*idx),
            SimpleAction::Play { trainer_card } => SimpleActionV::Play {
                trainer_card: trainer_card@,
            },
            SimpleAction::EndTurn => SimpleActionV::EndTurn,
        }
    }
}

/// Copies a list of plain values.
fn clone_copy_vec<T: Copy>(v: &Vec<T>) -> (r: Vec<T>)
    ensures
        r@ == v@,
{
    let mut r: Vec<T> = Vec::new();
    let mut i: usize = 0;
    while i < v.len()
        invariant
            i <= v@.len(),
            r@ == v@.take(i as int),
        decreases v@.len() - i,
    {
        r.push(v[i]);
        proof {
            assert(r@ =~= v@.take(i + 1int));
        }
        i += 1;
    }
    proof {
        assert(r@ =~= v@);
    }
    r
}

impl Clone for SimpleAction {
    fn clone(&self) -> (r: Self)
        ensures
            r@ == self@,
    {
        match self {
            SimpleAction::DrawCard => SimpleAction::DrawCard,
            SimpleAction::Place(card, idx) => SimpleAction::Place(card.clone(), *idx),
            SimpleAction::Evolve(card, idx) => SimpleAction::Evolve(card.clone(), *idx),
            SimpleAction::Attach { attachments, is_turn_energy } => SimpleAction::Attach {
                attachments: clone_copy_vec(attachments),
                is_turn_energy: *is_turn_energy,
            },
            SimpleAction::AttachTool { in_play_idx, tool_id } => SimpleAction::AttachTool {
                in_play_idx: *in_play_idx,
                tool_id: *tool_id,
            },
            SimpleAction::UseAbility(idx) => SimpleAction::UseAbility(*idx),
            SimpleAction::Activate { in_play_idx } => SimpleAction::Activate {
                in_play_idx: *in_play_idx,
            },
            SimpleAction::Retreat(idx) => SimpleAction::Retreat(*idx),
            SimpleAction::ApplyDamage { targets } => SimpleAction::ApplyDamage {
                targets: clone_copy_vec(targets),
            },
            SimpleAction::Heal { in_play_idx, amount } => SimpleAction::Heal {
                in_play_idx: *in_play_idx,
                amount: *amount,
            },
            SimpleAction::Attack(idx) => SimpleAction::Attack(*idx),
            SimpleAction::Play { trainer_card } => SimpleAction::Play {
                trainer_card: trainer_card.clone(),
            },
            SimpleAction::EndTurn => SimpleAction::EndTurn,
        }
    }
}

/// An action as committed: who acts, what they do, and whether the action
/// resolves a sub-decision frame from the move-generation stack.
#[derive(Debug, PartialEq, Eq, Hash)]
pub struct Action {
    pub actor: usize,
    pub action: SimpleAction,
    pub is_stack: bool,
}

/// Mathematical image of an [`Action`].
#[verifier::ext_equal]
pub ghost struct ActionV {
    pub actor: usize,
    pub action: SimpleActionV,
    pub is_stack: bool,
}

impl View for Action {
    type V = ActionV;

    open spec fn view(&self) -> ActionV {
        ActionV { actor: self.actor, action: self.action@, is_stack: self.is_stack }
    }
}

impl Clone for Action {
    fn clone(&self) -> (r: Self)
        ensures
            r@ == self@,
    {
        Action { actor: self.actor, action: self.action.clone(), is_stack: self.is_stack }
    }
}

/// Copies a list of actions, preserving each action's mathematical image.
pub fn clone_simple_actions(v: &Vec<SimpleAction>) -> (r: Vec<SimpleAction>)
    ensures
        r@.map_values(|a: SimpleAction| a@) == v@.map_values(|a: SimpleAction| a@),
        r@.len() == v@.len(),
{
    let mut r: Vec<SimpleAction> = Vec::new();
    let mut i: usize = 0;
    while i < v.len()
        invariant
            i <= v@.len(),
            r@.len() == i,
            forall|j: int| 0 <= j < i ==> #[trigger] r@[j]@ == v@[j]@,
        decreases v@.len() - i,
    {
        r.push(v[i].clone());
        i += 1;
    }
    proof {
        assert(r@.map_values(|a: SimpleAction| a@) =~= v@.map_values(|a: SimpleAction| a@));
    }
    r
}

} // verus!
