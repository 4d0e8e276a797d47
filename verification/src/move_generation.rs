use vstd::prelude::*;
use crate::actions::{Action, SimpleAction};
use crate::state::{State, StateV};
use crate::tool_ids::ToolId;
use crate::trainer_actions::{any_eligible, spec_slot_eligible, TargetFilter};
use crate::types::{str_eq, Card, EnergyType, PlayedCard, TrainerCard, TrainerType};

verus! {

/// How many energy of one type a list holds.
pub open spec fn spec_count_energy(s: Seq<EnergyType>, e: EnergyType) -> int
    decreases s.len(),
{
    if s.len() == 0 {
        0
    } else {
        (if s[0] == e {
            1int
        } else {
            0int
        }) + spec_count_energy(s.drop_first(), e)
    }
}

/// Counts the energy of one type in a list.
fn count_energy(s: &Vec<EnergyType>, e: EnergyType) -> (r: usize)
    ensures
        r == spec_count_energy(s@, e),
        r <= s@.len(),
{
    proof {
        lemma_count_energy_take(s@, e, 0);
    }
    let mut r: usize = 0;
    let mut i: usize = 0;
    while i < s.len()
        invariant
            i <= s@.len(),
            r <= i,
            r == spec_count_energy(s@.take(i as int), e),
        decreases s@.len() - i,
    {
        proof {
            lemma_count_energy_take(s@, e, i as int);
        }
        if s[i] == e {
            r += 1;
        }
        i += 1;
    }
    proof {
        assert(s@.take(s@.len() as int) =~= s@);
    }
    r
}

/// One more element extends the prefix count by its match.
proof fn lemma_count_energy_take(s: Seq<EnergyType>, e: EnergyType, i: int)
    requires
        0 <= i <= s.len(),
    ensures
        i < s.len() ==> spec_count_energy(s.take(i + 1), e) == spec_count_energy(s.take(i), e) + (
        if s[i] == e {
            1int
        } else {
            0int
        }),
    decreases i,
{
    if i < s.len() {
        if i == 0 {
            assert(s.take(1).drop_first() =~= s.take(0));
            assert(s.take(1)[0] == s[0]);
        } else {
            lemma_count_energy_take(s.drop_first(), e, i - 1);
            assert(s.take(i + 1).drop_first() =~= s.drop_first().take(i));
            assert(s.take(i).drop_first() =~= s.drop_first().take(i - 1));
            assert(s.take(i + 1)[0] == s[0]);
            assert(s.take(i)[0] == s[0]);
            assert(s.drop_first()[i - 1] == s[i]);
        }
    }
}

/// Whether the attached energy covers an attack's cost: each typed slot of
/// the cost is covered by an energy of that type, and there are at least as
/// many energy as cost slots in all, the rest covering the Colorless slots,
/// which accept any energy.
pub open spec fn spec_energy_sufficient(attached: Seq<EnergyType>, required: Seq<EnergyType>) -> bool {
    &&& required.len() <= attached.len()
    &&& forall|e: EnergyType|
        e != EnergyType::Colorless ==> #[trigger] spec_count_energy(required, e)
            <= spec_count_energy(attached, e)
}

/// Checks whether the attached energy covers an attack's cost.
pub fn energy_sufficient(attached: &Vec<EnergyType>, required: &Vec<EnergyType>) -> (r: bool)
    ensures
        r == spec_energy_sufficient(attached@, required@),
{
    if required.len() > attached.len() {
        return false;
    }
    let ok = count_energy(required, EnergyType::Grass) <= count_energy(attached, EnergyType::Grass)
        && count_energy(required, EnergyType::Fire) <= count_energy(attached, EnergyType::Fire)
        && count_energy(required, EnergyType::Water) <= count_energy(attached, EnergyType::Water)
        && count_energy(required, EnergyType::Lightning) <= count_energy(
        attached,
        EnergyType::Lightning,
    ) && count_energy(required, EnergyType::Psychic) <= count_energy(
        attached,
        EnergyType::Psychic,
    ) && count_energy(required, EnergyType::Fighting) <= count_energy(
        attached,
        EnergyType::Fighting,
    ) && count_energy(required, EnergyType::Darkness) <= count_energy(
        attached,
        EnergyType::Darkness,
    ) && count_energy(required, EnergyType::Metal) <= count_energy(attached, EnergyType::Metal)
        && count_energy(required, EnergyType::Dragon) <= count_energy(attached, EnergyType::Dragon);
    proof {
        if ok {
            assert forall|e: EnergyType|
                e != EnergyType::Colorless implies #[trigger] spec_count_energy(required@, e)
                <= spec_count_energy(attached@, e) by {
                match e {
                    EnergyType::Grass => {},
                    EnergyType::Fire => {},
                    EnergyType::Water => {},
                    EnergyType::Lightning => {},
                    EnergyType::Psychic => {},
                    EnergyType::Fighting => {},
                    EnergyType::Darkness => {},
                    EnergyType::Metal => {},
                    EnergyType::Dragon => {},
                    EnergyType::Colorless => {},
                }
            }
        }
    }
    ok
}

/// Whether attack `i` of the turn owner's active Pokemon may be declared:
/// attacking is forbidden before the second turn, and the attached energy
/// must cover the attack's cost.
pub open spec fn spec_attack_available(s: StateV, i: int) -> bool {
    &&& s.turn_count >= 2
    &&& s.slot(s.current_player as int, 0) matches Some(pc)
    &&& pc.card is Pokemon
    &&& 0 <= i < pc.card->Pokemon_0.attacks@.len()
    &&& spec_energy_sufficient(
        pc.attached_energy@,
        pc.card->Pokemon_0.attacks@[i].energy_required@,
    )
}

/// The attacks the turn owner may declare: nothing before the second turn,
/// nothing without an active Pokemon, and otherwise exactly the
/// declared attacks whose energy cost the active's attached energy covers,
/// in declaration order.
pub fn generate_attack_actions(state: &State) -> (r: Vec<SimpleAction>)
    requires
        state@.wf(),
    ensures
        state@.turn_count < 2 ==> r@.len() == 0,
        forall|k: int|
            0 <= k < r@.len() ==> ((#[trigger] r@[k]) matches SimpleAction::Attack(i)
                && spec_attack_available(state@, i as int)),
        forall|i: int|
            spec_attack_available(state@, i) ==> exists|k: int|
                0 <= k < r@.len() && r@[k] == SimpleAction::Attack(i as usize),
        forall|k1: int, k2: int|
            0 <= k1 < k2 < r@.len() ==> ((#[trigger] r@[k1]) matches SimpleAction::Attack(i1) && (
            #[trigger] r@[k2]) matches SimpleAction::Attack(i2) && i1 < i2),
{
    let mut r: Vec<SimpleAction> = Vec::new();
    if state.turn_count < 2 {
        return r;
    }
    proof {
        assert(state@.in_play_pokemon.len() == 2);
        assert(state@.in_play_pokemon[state@.current_player as int].len() == 4);
    }
    let active = match &state.in_play_pokemon[state.current_player][0] {
        Some(pc) => pc,
        None => {
            return r;
        },
    };
    let attacks = match &active.card {
        Card::Pokemon(pk) => &pk.attacks,
        Card::Trainer(_) => {
            return r;
        },
    };
    let mut i: usize = 0;
    while i < attacks.len()
        invariant
            state@.wf(),
            state@.turn_count >= 2,
            state@.slot(state@.current_player as int, 0) == Some(*active),
            active.card is Pokemon,
            attacks == active.card->Pokemon_0.attacks,
            i <= attacks@.len(),
            forall|k: int|
                0 <= k < r@.len() ==> ((#[trigger] r@[k]) matches SimpleAction::Attack(ai)
                    && ai < i && spec_attack_available(state@, ai as int)),
            forall|j: int|
                0 <= j < i && spec_attack_available(state@, j) ==> exists|k: int|
                    0 <= k < r@.len() && r@[k] == SimpleAction::Attack(j as usize),
            forall|k1: int, k2: int|
                0 <= k1 < k2 < r@.len() ==> ((#[trigger] r@[k1]) matches SimpleAction::Attack(i1)
                    && (#[trigger] r@[k2]) matches SimpleAction::Attack(i2) && i1 < i2),
        decreases attacks@.len() - i,
    {
        let ghost pre_r = r@;
        if energy_sufficient(&active.attached_energy, &attacks[i].energy_required) {
            r.push(SimpleAction::Attack(i));
        }
        proof {
            assert forall|j: int|
                0 <= j < i + 1 && spec_attack_available(state@, j) implies exists|k: int|
                0 <= k < r@.len() && r@[k] == SimpleAction::Attack(j as usize) by {
                if j < i {
                    let k0 = choose|k: int|
                        0 <= k < pre_r.len() && pre_r[k] == SimpleAction::Attack(j as usize);
                    assert(r@[k0] == SimpleAction::Attack(j as usize));
                } else {
                    assert(r@[r@.len() - 1] == SimpleAction::Attack(j as usize));
                }
            }
        }
        i += 1;
    }
    r
}

/// Whether the Pokemon in the turn owner's slot may use its ability this
/// turn: it has an implemented, activatable ability it has not used;
/// Weezing's demands the active spot; Arceus's is never activatable.
pub open spec fn spec_ability_usable(s: StateV, i: int) -> bool {
    &&& s.slot(s.current_player as int, i) matches Some(pc)
    &&& !pc.ability_used
    &&& match pc.card {
        Card::Pokemon(pk) => pk.ability matches Some(ab) && match crate::ability_ids::spec_ability_of_title(
            ab.title@,
        ) {
            Some(crate::ability_ids::AbilityId::PowderHeal) => true,
            Some(crate::ability_ids::AbilityId::PsyShadow) => true,
            Some(crate::ability_ids::AbilityId::GasLeak) => i == 0,
            Some(crate::ability_ids::AbilityId::FabledLuster) => false,
            None => false,
        },
        Card::Trainer(_) => false,
    }
}

/// The ability activations the turn owner may declare: one per fielded
/// Pokemon whose ability is implemented, activatable where it stands, and
/// unused this turn, in slot order.
pub fn generate_ability_actions(state: &State) -> (r: Vec<SimpleAction>)
    requires
        state@.wf(),
    ensures
        forall|k: int|
            0 <= k < r@.len() ==> ((#[trigger] r@[k]) matches SimpleAction::UseAbility(i) && i < 4
                && spec_ability_usable(state@, i as int)),
        forall|i: int|
            0 <= i < 4 && spec_ability_usable(state@, i) ==> exists|k: int|
                0 <= k < r@.len() && r@[k] == SimpleAction::UseAbility(i as usize),
{
    let mut r: Vec<SimpleAction> = Vec::new();
    let cp = state.current_player;
    proof {
        assert(state@.in_play_pokemon.len() == 2);
        assert(state@.in_play_pokemon[cp as int].len() == 4);
    }
    let mut i: usize = 0;
    while i < 4
        invariant
            state@.wf(),
            cp == state@.current_player,
            cp < 2,
            state@.in_play_pokemon.len() == 2,
            state@.in_play_pokemon[cp as int].len() == 4,
            i <= 4,
            forall|k: int|
                0 <= k < r@.len() ==> ((#[trigger] r@[k]) matches SimpleAction::UseAbility(ai)
                    && ai < i && spec_ability_usable(state@, ai as int)),
            forall|j: int|
                0 <= j < i && spec_ability_usable(state@, j) ==> exists|k: int|
                    0 <= k < r@.len() && r@[k] == SimpleAction::UseAbility(j as usize),
        decreases 4 - i,
    {
        let ghost pre_r = r@;
        let usable = match &state.in_play_pokemon[cp][i] {
            Some(pc) => {
                if pc.ability_used {
                    false
                } else {
                    match crate::ability_ids::AbilityId::from_card(&pc.card) {
                        Some(crate::ability_ids::AbilityId::PowderHeal) => true,
                        Some(crate::ability_ids::AbilityId::PsyShadow) => true,
                        Some(crate::ability_ids::AbilityId::GasLeak) => i == 0,
                        Some(crate::ability_ids::AbilityId::FabledLuster) => false,
                        None => false,
                    }
                }
            },
            None => false,
        };
        if usable {
            r.push(SimpleAction::UseAbility(i));
        }
        proof {
            assert forall|j: int|
                0 <= j < i + 1 && spec_ability_usable(state@, j) implies exists|k: int|
                0 <= k < r@.len() && r@[k] == SimpleAction::UseAbility(j as usize) by {
                if j < i {
                    let k0 = choose|k: int|
                        0 <= k < pre_r.len() && pre_r[k] == SimpleAction::UseAbility(j as usize);
                    assert(r@[k0] == SimpleAction::UseAbility(j as usize));
                } else {
                    assert(r@[r@.len() - 1] == SimpleAction::UseAbility(j as usize));
                }
            }
        }
        i += 1;
    }
    r
}

/// Whether a trainer card's numeric identifier is one the engine implements.
pub open spec fn spec_trainer_implemented(n: u16) -> bool {
    n == 901 || n == 902 || n == 905 || n == 906 || n == 907 || n == 365 || n == 219 || n == 266
        || n == 220 || n == 267 || n == 222 || n == 269 || n == 223 || n == 270 || n == 225 || n
        == 272 || n == 368 || n == 382 || n == 550 || n == 590 || n == 547 || n == 910
}

/// Whether the turn owner's active Pokemon is named as Koga's target.
pub open spec fn spec_koga_target(s: StateV) -> bool {
    s.slot(s.current_player as int, 0) matches Some(pc) && (pc.card.spec_name() == "Weezing"@
        || pc.card.spec_name() == "Muk"@)
}

/// The per-card condition under which a trainer may be played, before the
/// Supporter lockout is considered.
pub open spec fn spec_trainer_gate(s: StateV, n: u16) -> bool {
    let cp = s.current_player as int;
    let opp = 1 - cp;
    if n == 901 {
        exists|i: int| 0 <= i < 4 && spec_slot_eligible(s, cp, i, TargetFilter::Damaged)
    } else if n == 219 || n == 266 {
        exists|i: int|
            0 <= i < 4 && spec_slot_eligible(
                s,
                cp,
                i,
                TargetFilter::DamagedOfType(EnergyType::Grass),
            )
    } else if n == 220 || n == 267 {
        exists|i: int|
            0 <= i < 4 && spec_slot_eligible(s, cp, i, TargetFilter::OfType(EnergyType::Water))
    } else if n == 222 || n == 269 {
        spec_koga_target(s)
    } else if n == 225 || n == 272 {
        exists|i: int| 1 <= i < 4 && spec_slot_eligible(s, opp, i, TargetFilter::Any)
    } else if n == 550 || n == 590 {
        exists|i: int| 1 <= i < 4 && spec_slot_eligible(s, opp, i, TargetFilter::Damaged)
    } else if n == 547 || n == 910 {
        exists|i: int| 0 <= i < 4 && spec_slot_eligible(s, cp, i, TargetFilter::WithoutTool)
    } else {
        true
    }
}

/// The plays a trainer card admits: `None` for a card the engine does not
/// implement; an empty list when the card's own condition fails or a
/// Supporter is played while the turn's Supporter is spent; and
/// otherwise exactly one `Play` of the card.
pub fn generate_possible_trainer_actions(state: &State, trainer_card: &TrainerCard) -> (r: Option<
    Vec<SimpleAction>,
>)
    requires
        state@.wf(),
    ensures
        (r is Some) == spec_trainer_implemented(trainer_card.numeric_id),
        r matches Some(acts) ==> {
            let allowed = !(trainer_card.trainer_card_type == TrainerType::Supporter
                && state@.has_played_support) && spec_trainer_gate(
                state@,
                trainer_card.numeric_id,
            );
            if allowed {
                acts@.len() == 1 && (acts@[0] matches SimpleAction::Play { trainer_card: t } && t@
                    == trainer_card@)
            } else {
                acts@.len() == 0
            }
        },
{
    let n = trainer_card.numeric_id;
    let implemented = n == 901 || n == 902 || n == 905 || n == 906 || n == 907 || n == 365 || n
        == 219 || n == 266 || n == 220 || n == 267 || n == 222 || n == 269 || n == 223 || n == 270
        || n == 225 || n == 272 || n == 368 || n == 382 || n == 550 || n == 590 || n == 547 || n
        == 910;
    if !implemented {
        return None;
    }
    let mut acts: Vec<SimpleAction> = Vec::new();
    if matches!(trainer_card.trainer_card_type, TrainerType::Supporter)
        && state.has_played_support {
        return Some(acts);
    }
    let cp = state.current_player;
    let opp = (cp + 1) % 2;
    proof {
        assert(cp < 2);
        assert(opp as int == 1 - cp as int);
    }
    let gate = if n == 901 {
        any_eligible(state, cp, 0, TargetFilter::Damaged)
    } else if n == 219 || n == 266 {
        any_eligible(state, cp, 0, TargetFilter::DamagedOfType(EnergyType::Grass))
    } else if n == 220 || n == 267 {
        any_eligible(state, cp, 0, TargetFilter::OfType(EnergyType::Water))
    } else if n == 222 || n == 269 {
        proof {
            assert(state@.in_play_pokemon.len() == 2);
            assert(state@.in_play_pokemon[cp as int].len() == 4);
        }
        match &state.in_play_pokemon[cp][0] {
            Some(pc) => {
                let name = pc.get_name();
                str_eq(name.as_str(), "Weezing") || str_eq(name.as_str(), "Muk")
            },
            None => false,
        }
    } else if n == 225 || n == 272 {
        any_eligible(state, opp, 1, TargetFilter::Any)
    } else if n == 550 || n == 590 {
        any_eligible(state, opp, 1, TargetFilter::Damaged)
    } else if n == 547 || n == 910 {
        any_eligible(state, cp, 0, TargetFilter::WithoutTool)
    } else {
        true
    };
    if gate {
        acts.push(SimpleAction::Play { trainer_card: trainer_card.clone() });
    }
    Some(acts)
}

} // verus!

verus! {

/// What the move generator guarantees of every action it produces afresh
/// for the turn owner: the turn owner acts, outside any sub-decision; no
/// attack before the second turn; no Supporter while the turn's
/// Supporter is spent; no retreat after the turn's retreat; energy
/// attachment only while the turn's energy is available.
pub open spec fn spec_fresh_action_ok(s: StateV, a: Action) -> bool {
    &&& a.actor == s.current_player
    &&& !a.is_stack
    &&& match a.action {
        SimpleAction::Attack(i) => spec_attack_available(s, i as int),
        SimpleAction::Play { trainer_card } => !(trainer_card.trainer_card_type
            == TrainerType::Supporter && s.has_played_support),
        SimpleAction::Retreat(_) => !s.has_retreated,
        SimpleAction::Attach { attachments, is_turn_energy } => is_turn_energy
            ==> s.current_energy is Some,
        _ => true,
    }
}

/// The decision in front of the driver. With sub-decisions outstanding, the
/// top frame decides: its recorded actor answers, choosing among the frame's
/// actions; the turn owner is consulted afresh only when the stack is empty
/// A fresh consultation always offers ending the turn, so the turn
/// owner always has a move.
pub fn generate_possible_actions(state: &State) -> (r: (usize, Vec<Action>))
    requires
        state@.wf(),
    ensures
        r.0 < 2,
        state@.move_generation_stack.len() > 0 ==> {
            let top = state@.move_generation_stack.last();
            &&& r.0 == top.0
            &&& r.1@.len() == top.1.len()
            &&& forall|k: int|
                0 <= k < r.1@.len() ==> (#[trigger] r.1@[k]).actor == top.0 && r.1@[k].is_stack
                    && r.1@[k].action@ == top.1[k]@
        },
        state@.move_generation_stack.len() == 0 ==> {
            &&& forall|k: int|
                0 <= k < r.1@.len() ==> spec_fresh_action_ok(state@, #[trigger] r.1@[k])
            &&& exists|k: int|
                0 <= k < r.1@.len() && (#[trigger] r.1@[k]).action == SimpleAction::EndTurn
            &&& forall|i: int|
                spec_attack_available(state@, i) ==> exists|k: int|
                    0 <= k < r.1@.len() && (#[trigger] r.1@[k]).action == SimpleAction::Attack(
                        i as usize,
                    )
        },
{
    let stack_len = state.move_generation_stack.len();
    if stack_len > 0 {
        let frame_actor = state.move_generation_stack[stack_len - 1].0;
        let frame_actions = crate::actions::clone_simple_actions(
            &state.move_generation_stack[stack_len - 1].1,
        );
        let mut r: Vec<Action> = Vec::new();
        let mut k: usize = 0;
        proof {
            assert(state@.move_generation_stack.last().0 == frame_actor);
            assert(state@.move_generation_stack.last().1 =~~= state@.move_generation_stack[
                stack_len - 1
            ].1);
        }
        while k < frame_actions.len()
            invariant
                frame_actor < 2,
                k <= frame_actions@.len(),
                r@.len() == k,
                forall|j: int|
                    0 <= j < k ==> (#[trigger] r@[j]).actor == frame_actor && r@[j].is_stack
                        && r@[j].action@ == frame_actions@[j]@,
            decreases frame_actions@.len() - k,
        {
            let act = frame_actions[k].clone();
            r.push(Action { actor: frame_actor, action: act, is_stack: true });
            k += 1;
        }
        proof {
            let orig = state.move_generation_stack@[stack_len - 1].1;
            assert(state@.move_generation_stack.last().1 == orig@);
            assert forall|j: int|
                0 <= j < r@.len() implies (#[trigger] r@[j]).actor
                == state@.move_generation_stack.last().0 && r@[j].is_stack && r@[j].action@
                == state@.move_generation_stack.last().1[j]@ by {
                assert(frame_actions@.map_values(|x: SimpleAction| x@)[j] == frame_actions@[j]@);
                assert(orig@.map_values(|x: SimpleAction| x@)[j] == orig@[j]@);
                assert(frame_actions@[j]@ == orig@[j]@);
            }
        }
        return (frame_actor, r);
    }
    let cp = state.current_player;
    let mut r: Vec<Action> = Vec::new();
    // Place a Basic from hand into each empty slot.
    let hand_len = state.hands[cp].len();
    let mut h: usize = 0;
    while h < hand_len
        invariant
            state@.wf(),
            cp == state@.current_player,
            cp < 2,
            hand_len == state@.hands[cp as int].len(),
            h <= hand_len,
            forall|k: int| 0 <= k < r@.len() ==> spec_fresh_action_ok(state@, #[trigger] r@[k]),
        decreases hand_len - h,
    {
        let card = &state.hands[cp][h];
        if crate::deck::is_basic(card) {
            let mut slot: usize = 0;
            while slot < 4
                invariant
                    state@.wf(),
                    cp == state@.current_player,
                    cp < 2,
                    state@.in_play_pokemon.len() == 2,
                    state@.in_play_pokemon[cp as int].len() == 4,
                    hand_len == state@.hands[cp as int].len(),
                    h < hand_len,
                    slot <= 4,
                    card == state@.hands[cp as int][h as int],
                    forall|k: int|
                        0 <= k < r@.len() ==> spec_fresh_action_ok(state@, #[trigger] r@[k]),
                decreases 4 - slot,
            {
                if state.in_play_pokemon[cp][slot].is_none() {
                    r.push(
                        Action {
                            actor: cp,
                            action: SimpleAction::Place(card.clone(), slot),
                            is_stack: false,
                        },
                    );
                }
                slot += 1;
            }
        } else {
            // Evolutions: a non-Basic Pokemon in hand may evolve a fielded
            // Pokemon it evolves from that did not enter play this turn.
            match card {
                Card::Pokemon(pk) => {
                    match &pk.evolves_from {
                        Some(from_name) => {
                            let mut slot: usize = 0;
                            while slot < 4
                                invariant
                                    state@.wf(),
                                    cp == state@.current_player,
                                    cp < 2,
                                    state@.in_play_pokemon.len() == 2,
                                    state@.in_play_pokemon[cp as int].len() == 4,
                                    hand_len == state@.hands[cp as int].len(),
                                    h < hand_len,
                                    slot <= 4,
                                    card == state@.hands[cp as int][h as int],
                                    forall|k: int|
                                        0 <= k < r@.len() ==> spec_fresh_action_ok(
                                            state@,
                                            #[trigger] r@[k],
                                        ),
                                decreases 4 - slot,
                            {
                                match &state.in_play_pokemon[cp][slot] {
                                    Some(pc) => {
                                        if !pc.played_this_turn {
                                            let name = pc.get_name();
                                            if str_eq(name.as_str(), from_name.as_str()) {
                                                r.push(
                                                    Action {
                                                        actor: cp,
                                                        action: SimpleAction::Evolve(
                                                            card.clone(),
                                                            slot,
                                                        ),
                                                        is_stack: false,
                                                    },
                                                );
                                            }
                                        }
                                    },
                                    None => {},
                                }
                                slot += 1;
                            }
                        },
                        None => {},
                    }
                },
                Card::Trainer(trainer_card) => {
                    // Trainer plays, gated per card.
                    match generate_possible_trainer_actions(state, trainer_card) {
                        Some(mut acts) => {
                            if acts.len() > 0 {
                                let act = acts.remove(0);
                                match &act {
                                    SimpleAction::Play { trainer_card: t } => {
                                        if !(matches!(
                                            t.trainer_card_type,
                                            TrainerType::Supporter,
                                        ) && state.has_played_support) {
                                            r.push(
                                                Action {
                                                    actor: cp,
                                                    action: act,
                                                    is_stack: false,
                                                },
                                            );
                                        }
                                    },
                                    _ => {},
                                }
                            }
                        },
                        None => {},
                    }
                },
            }
        }
        h += 1;
    }
    // Attach this turn's energy to any fielded Pokemon.
    match state.current_energy {
        Some(e) => {
            let mut slot: usize = 0;
            while slot < 4
                invariant
                    state@.wf(),
                    cp == state@.current_player,
                    cp < 2,
                    state@.in_play_pokemon.len() == 2,
                    state@.in_play_pokemon[cp as int].len() == 4,
                    state@.current_energy is Some,
                    slot <= 4,
                    forall|k: int|
                        0 <= k < r@.len() ==> spec_fresh_action_ok(state@, #[trigger] r@[k]),
                decreases 4 - slot,
            {
                if state.in_play_pokemon[cp][slot].is_some() {
                    let mut attachments: Vec<(u32, EnergyType, usize)> = Vec::new();
                    attachments.push((1, e, slot));
                    r.push(
                        Action {
                            actor: cp,
                            action: SimpleAction::Attach { attachments, is_turn_energy: true },
                            is_stack: false,
                        },
                    );
                }
                slot += 1;
            }
        },
        None => {},
    }
    // Abilities.
    let mut abilities = generate_ability_actions(state);
    let mut a: usize = 0;
    while a < abilities.len()
        invariant
            state@.wf(),
            cp == state@.current_player,
            cp < 2,
            a <= abilities@.len(),
            forall|k: int| 0 <= k < r@.len() ==> spec_fresh_action_ok(state@, #[trigger] r@[k]),
            forall|j: int|
                0 <= j < abilities@.len() ==> (#[trigger] abilities@[j]) matches SimpleAction::UseAbility(_),
        decreases abilities@.len() - a,
    {
        let act = abilities[a].clone();
        proof {
            assert(act@ == abilities@[a as int]@);
            assert(act matches SimpleAction::UseAbility(_));
        }
        r.push(Action { actor: cp, action: act, is_stack: false });
        a += 1;
    }
    // Retreat: once per turn, with an active that can pay and a bench to go to.
    if !state.has_retreated {
        proof {
            assert(state@.in_play_pokemon.len() == 2);
            assert(state@.in_play_pokemon[cp as int].len() == 4);
        }
        match &state.in_play_pokemon[cp][0] {
            Some(active) => {
                let cost = crate::hooks::get_retreat_cost(state, active);
                if active.attached_energy.len() >= cost.len() {
                    let mut slot: usize = 1;
                    while slot < 4
                        invariant
                            state@.wf(),
                            cp == state@.current_player,
                            cp < 2,
                            state@.in_play_pokemon.len() == 2,
                            state@.in_play_pokemon[cp as int].len() == 4,
                            !state@.has_retreated,
                            1 <= slot <= 4,
                            forall|k: int|
                                0 <= k < r@.len() ==> spec_fresh_action_ok(
                                    state@,
                                    #[trigger] r@[k],
                                ),
                        decreases 4 - slot,
                    {
                        if state.in_play_pokemon[cp][slot].is_some() {
                            r.push(
                                Action {
                                    actor: cp,
                                    action: SimpleAction::Retreat(slot),
                                    is_stack: false,
                                },
                            );
                        }
                        slot += 1;
                    }
                }
            },
            None => {},
        }
    }
    // Attacks, complete over the active's declared attacks.
    let mut attacks = generate_attack_actions(state);
    let ghost attacks_view = attacks@;
    let mut t: usize = 0;
    let ghost base_len = r@.len();
    while t < attacks.len()
        invariant
            state@.wf(),
            cp == state@.current_player,
            cp < 2,
            t <= attacks@.len(),
            attacks@ == attacks_view,
            forall|j: int|
                0 <= j < attacks_view.len() ==> ((#[trigger] attacks_view[j])
                    matches SimpleAction::Attack(i) && spec_attack_available(state@, i as int)),
            r@.len() == base_len + t,
            forall|k: int| 0 <= k < r@.len() ==> spec_fresh_action_ok(state@, #[trigger] r@[k]),
            forall|j: int|
                0 <= j < t ==> (#[trigger] r@[base_len + j]).action == attacks_view[j]
                    && r@[base_len + j].actor == cp && !r@[base_len + j].is_stack,
        decreases attacks@.len() - t,
    {
        let act = attacks[t].clone();
        proof {
            assert(act@ == attacks_view[t as int]@);
            assert(attacks_view[t as int] matches SimpleAction::Attack(_));
            assert(act == attacks_view[t as int]);
        }
        r.push(Action { actor: cp, action: act, is_stack: false });
        t += 1;
    }
    // Ending the turn is always possible.
    r.push(Action { actor: cp, action: SimpleAction::EndTurn, is_stack: false });
    proof {
        assert(r@[r@.len() - 1].action == SimpleAction::EndTurn);
        assert forall|i: int| spec_attack_available(state@, i) implies exists|k: int|
            0 <= k < r@.len() && (#[trigger] r@[k]).action == SimpleAction::Attack(i as usize) by {
            let j = choose|j: int|
                0 <= j < attacks_view.len() && attacks_view[j] == SimpleAction::Attack(i as usize);
            assert(r@[base_len + j].action == SimpleAction::Attack(i as usize));
        }
    }
    (cp, r)
}

} // verus!
