use vstd::prelude::*;
use crate::actions::{Action, SimpleAction};
use crate::apply_action::{spec_sum, spec_valid_forecast, Outcome, Probabilities};
use crate::rng::rand_index;
use crate::state::{spec_effect_views_at, State, StateV};
use crate::tool_ids::ToolId;
use crate::types::{Card, EnergyType, PlayedCard, TrainerCard};

verus! {

/// Whether a numeric identifier names one of Misty's printings, the one
/// trainer whose resolution is genuinely probabilistic.
pub open spec fn spec_is_misty(numeric_id: u16) -> bool {
    numeric_id == 220 || numeric_id == 267
}

/// A forecast with a single, certain resolution.
pub fn deterministic_safe() -> (r: (Probabilities, Vec<Outcome>))
    ensures
        spec_valid_forecast(r.0@, r.1@),
        r.0@.len() == 1,
        r.1@ =~= seq![Outcome::TrainerPlay],
{
    let mut probs: Probabilities = Vec::new();
    probs.push(64);
    let mut outcomes: Vec<Outcome> = Vec::new();
    outcomes.push(Outcome::TrainerPlay);
    proof {
        crate::apply_action::lemma_sum_first(probs@);
        crate::apply_action::lemma_sum_empty(probs@.drop_first());
    }
    (probs, outcomes)
}

/// Professor's Research draws two cards. The forecast is a single outcome:
/// which cards come is hidden information, resolved only at commit time.
pub fn professor_research_outcomes_safe(acting_player: usize, state: &State) -> (r: (
    Probabilities,
    Vec<Outcome>,
))
    ensures
        spec_valid_forecast(r.0@, r.1@),
        r.0@.len() == 1,
        r.1@ =~= seq![Outcome::TrainerPlay],
{
    let _ = acting_player;
    let _ = state;
    deterministic_safe()
}

/// Poke Ball fetches a random Basic from the deck. The forecast is a single
/// outcome: which Basics the deck holds is hidden information.
pub fn pokeball_outcomes_safe(acting_player: usize, state: &State) -> (r: (
    Probabilities,
    Vec<Outcome>,
))
    ensures
        spec_valid_forecast(r.0@, r.1@),
        r.0@.len() == 1,
        r.1@ =~= seq![Outcome::TrainerPlay],
{
    let _ = acting_player;
    let _ = state;
    deterministic_safe()
}

/// Red Card has the opponent shuffle their hand away and draw three. The
/// forecast is a single outcome: what they draw is hidden information.
pub fn red_card_outcomes_safe(acting_player: usize, state: &State) -> (r: (
    Probabilities,
    Vec<Outcome>,
))
    ensures
        spec_valid_forecast(r.0@, r.1@),
        r.0@.len() == 1,
        r.1@ =~= seq![Outcome::TrainerPlay],
{
    let _ = acting_player;
    let _ = state;
    deterministic_safe()
}

/// Mythical Slab peeks at the top card. The forecast is a single outcome:
/// the top card is hidden information.
pub fn mythical_slab_outcomes_safe(acting_player: usize, state: &State) -> (r: (
    Probabilities,
    Vec<Outcome>,
))
    ensures
        spec_valid_forecast(r.0@, r.1@),
        r.0@.len() == 1,
        r.1@ =~= seq![Outcome::TrainerPlay],
{
    let _ = acting_player;
    let _ = state;
    deterministic_safe()
}

/// Misty flips coins until tails. The forecast is the true geometric
/// distribution over the number of heads, truncated at five with the
/// remaining mass folded into the last bucket: 32, 16, 8, 4, 2, 2
/// sixty-fourths for zero to five heads.
pub fn misty_outcomes_safe() -> (r: (Probabilities, Vec<Outcome>))
    ensures
        spec_valid_forecast(r.0@, r.1@),
        r.0@ =~= seq![32u32, 16u32, 8u32, 4u32, 2u32, 2u32],
        forall|i: int| 0 <= i < 6 ==> r.1@[i] == Outcome::MistyHeads(i as u32),
{
    let mut probs: Probabilities = Vec::new();
    probs.push(32);
    probs.push(16);
    probs.push(8);
    probs.push(4);
    probs.push(2);
    probs.push(2);
    let mut outcomes: Vec<Outcome> = Vec::new();
    outcomes.push(Outcome::MistyHeads(0));
    outcomes.push(Outcome::MistyHeads(1));
    outcomes.push(Outcome::MistyHeads(2));
    outcomes.push(Outcome::MistyHeads(3));
    outcomes.push(Outcome::MistyHeads(4));
    outcomes.push(Outcome::MistyHeads(5));
    proof {
        let s0 = probs@;
        let s1 = s0.drop_first();
        let s2 = s1.drop_first();
        let s3 = s2.drop_first();
        let s4 = s3.drop_first();
        let s5 = s4.drop_first();
        let s6 = s5.drop_first();
        crate::apply_action::lemma_sum_first(s0);
        crate::apply_action::lemma_sum_first(s1);
        crate::apply_action::lemma_sum_first(s2);
        crate::apply_action::lemma_sum_first(s3);
        crate::apply_action::lemma_sum_first(s4);
        crate::apply_action::lemma_sum_first(s5);
        crate::apply_action::lemma_sum_empty(s6);
        assert(probs@ =~= seq![32u32, 16u32, 8u32, 4u32, 2u32, 2u32]);
    }
    (probs, outcomes)
}

/// The information-safe forecast of playing a trainer card: Misty gets her
/// true coin distribution; every other card resolves in a single outcome, so
/// that nothing about hidden cards leaks through the forecast.
pub fn forecast_trainer_action_safe(
    acting_player: usize,
    state: &State,
    trainer_card: &TrainerCard,
) -> (r: (Probabilities, Vec<Outcome>))
    ensures
        spec_valid_forecast(r.0@, r.1@),
        !spec_is_misty(trainer_card.numeric_id) ==> r.0@.len() == 1 && r.1@ =~= seq![
            Outcome::TrainerPlay,
        ],
        spec_is_misty(trainer_card.numeric_id) ==> r.0@ =~= seq![
            32u32,
            16u32,
            8u32,
            4u32,
            2u32,
            2u32,
        ] && (forall|i: int| 0 <= i < 6 ==> r.1@[i] == Outcome::MistyHeads(i as u32)),
{
    if trainer_card.numeric_id == 220 || trainer_card.numeric_id == 267 {
        misty_outcomes_safe()
    } else if trainer_card.numeric_id == 905 {
        pokeball_outcomes_safe(acting_player, state)
    } else if trainer_card.numeric_id == 906 {
        red_card_outcomes_safe(acting_player, state)
    } else if trainer_card.numeric_id == 907 {
        professor_research_outcomes_safe(acting_player, state)
    } else if trainer_card.numeric_id == 365 {
        mythical_slab_outcomes_safe(acting_player, state)
    } else {
        deterministic_safe()
    }
}

/// Which fielded Pokemon an effect may target.
#[derive(Debug, Clone, Copy, PartialEq, Eq, Structural)]
pub enum TargetFilter {
    Any,
    Damaged,
    DamagedOfType(EnergyType),
    OfType(EnergyType),
    Poisoned,
    WithoutTool,
}

/// Whether a fielded Pokemon passes a target filter.
pub open spec fn spec_filter_ok(filter: TargetFilter, pc: PlayedCard) -> bool {
    match filter {
        TargetFilter::Any => true,
        TargetFilter::Damaged => pc.remaining_hp < pc.total_hp,
        TargetFilter::DamagedOfType(e) => pc.remaining_hp < pc.total_hp && pc.card.spec_type()
            == Some(e),
        TargetFilter::OfType(e) => pc.card.spec_type() == Some(e),
        TargetFilter::Poisoned => pc.poisoned,
        TargetFilter::WithoutTool => pc.attached_tool is None,
    }
}

fn filter_ok(filter: TargetFilter, pc: &PlayedCard) -> (r: bool)
    ensures
        r == spec_filter_ok(filter, *pc),
{
    match filter {
        TargetFilter::Any => true,
        TargetFilter::Damaged => pc.remaining_hp < pc.total_hp,
        TargetFilter::DamagedOfType(e) => {
            pc.remaining_hp < pc.total_hp && match pc.get_energy_type() {
                Some(t) => t == e,
                None => false,
            }
        },
        TargetFilter::OfType(e) => match pc.get_energy_type() {
            Some(t) => t == e,
            None => false,
        },
        TargetFilter::Poisoned => pc.poisoned,
        TargetFilter::WithoutTool => pc.attached_tool.is_none(),
    }
}

/// Whether slot `i` of `player`'s side holds a Pokemon passing the filter.
pub open spec fn spec_slot_eligible(s: StateV, player: int, i: int, filter: TargetFilter) -> bool {
    match s.slot(player, i) {
        Some(pc) => spec_filter_ok(filter, pc),
        None => false,
    }
}

/// The slots of `player`'s side, from `from_idx` on, whose Pokemon pass the
/// filter, in increasing order and without omission.
pub(crate) fn eligible_slots(state: &State, player: usize, from_idx: usize, filter: TargetFilter)
    -> (r: Vec<usize>)
    requires
        state@.wf(),
        player < 2,
        from_idx <= 4,
    ensures
        forall|k: int|
            0 <= k < r@.len() ==> from_idx <= (#[trigger] r@[k]) < 4 && spec_slot_eligible(
                state@,
                player as int,
                r@[k] as int,
                filter,
            ),
        forall|i: int|
            from_idx <= i < 4 && spec_slot_eligible(state@, player as int, i, filter)
                ==> exists|k: int| 0 <= k < r@.len() && (#[trigger] r@[k]) == i,
        forall|k1: int, k2: int| 0 <= k1 < k2 < r@.len() ==> r@[k1] < r@[k2],
{
    let mut r: Vec<usize> = Vec::new();
    let mut i: usize = from_idx;
    while i < 4
        invariant
            state@.wf(),
            player < 2,
            from_idx <= i <= 4,
            forall|k: int|
                0 <= k < r@.len() ==> from_idx <= (#[trigger] r@[k]) < i && spec_slot_eligible(
                    state@,
                    player as int,
                    r@[k] as int,
                    filter,
                ),
            forall|j: int|
                from_idx <= j < i && spec_slot_eligible(state@, player as int, j, filter)
                    ==> exists|k: int| 0 <= k < r@.len() && (#[trigger] r@[k]) == j,
            forall|k1: int, k2: int| 0 <= k1 < k2 < r@.len() ==> r@[k1] < r@[k2],
        decreases 4 - i,
    {
        let ghost pre_r = r@;
        let eligible = match self_slot(state, player, i) {
            Some(pc) => filter_ok(filter, pc),
            None => false,
        };
        if eligible {
            r.push(i);
        }
        proof {
            assert forall|j: int|
                from_idx <= j < i + 1 && spec_slot_eligible(state@, player as int, j, filter)
                implies exists|k: int| 0 <= k < r@.len() && (#[trigger] r@[k]) == j by {
                if j < i {
                    let k0 = choose|k: int| 0 <= k < pre_r.len() && (#[trigger] pre_r[k]) == j;
                    assert(r@[k0] == j);
                } else {
                    assert(r@[r@.len() - 1] == i);
                }
            }
        }
        i += 1;
    }
    r
}

/// A reference to the Pokemon in a slot, if any.
fn self_slot<'a>(state: &'a State, player: usize, i: usize) -> (r: &'a Option<PlayedCard>)
    requires
        state@.wf(),
        player < 2,
        i < 4,
    ensures
        *r == state@.slot(player as int, i as int),
{
    &state.in_play_pokemon[player][i]
}

/// Whether any slot of `player`'s side from `from_idx` on passes the filter.
pub(crate) fn any_eligible(
    state: &State,
    player: usize,
    from_idx: usize,
    filter: TargetFilter,
) -> (r: bool)
    requires
        state@.wf(),
        player < 2,
        from_idx <= 4,
    ensures
        r == exists|i: int|
            from_idx <= i < 4 && spec_slot_eligible(state@, player as int, i, filter),
{
    let slots = eligible_slots(state, player, from_idx, filter);
    let r = slots.len() > 0;
    proof {
        if r {
            assert(spec_slot_eligible(state@, player as int, slots@[0] as int, filter));
        } else {
            if exists|i: int|
                from_idx <= i < 4 && spec_slot_eligible(state@, player as int, i, filter) {
                let i = choose|i: int|
                    from_idx <= i < 4 && spec_slot_eligible(state@, player as int, i, filter);
                assert(false);
            }
        }
    }
    r
}

/// One entry of a healing frame: heal `amount` on an eligible slot.
pub open spec fn spec_is_heal_option(
    s_old: StateV,
    actor: usize,
    amount: u32,
    filter: TargetFilter,
    a: SimpleAction,
) -> bool {
    match a {
        SimpleAction::Heal { in_play_idx, amount: am } => am == amount && spec_slot_eligible(
            s_old,
            actor as int,
            in_play_idx as int,
            filter,
        ),
        _ => false,
    }
}

/// The slot a healing entry aims at.
pub open spec fn spec_heal_option_slot(a: SimpleAction) -> int {
    match a {
        SimpleAction::Heal { in_play_idx, .. } => in_play_idx as int,
        _ => -1,
    }
}

/// A sub-decision frame offering `actor` to heal `amount` on eligible slots:
/// every entry heals an eligible slot, and every eligible slot has an entry.
pub open spec fn spec_heal_frame(
    s_old: StateV,
    frame: (usize, Seq<SimpleAction>),
    actor: usize,
    amount: u32,
    filter: TargetFilter,
) -> bool {
    &&& frame.0 == actor
    &&& frame.1.len() >= 1
    &&& forall|k: int|
        0 <= k < frame.1.len() ==> spec_is_heal_option(
            s_old,
            actor,
            amount,
            filter,
            #[trigger] frame.1[k],
        )
    &&& forall|i: int|
        0 <= i < 4 && spec_slot_eligible(s_old, actor as int, i, filter) ==> exists|k: int|
            0 <= k < frame.1.len() && spec_heal_option_slot(#[trigger] frame.1[k]) == i
}

/// The target filter a healing effect uses: any Pokemon, or the damaged ones
/// of one elemental type.
pub open spec fn spec_heal_filter(energy: Option<EnergyType>) -> TargetFilter {
    match energy {
        Some(e) => TargetFilter::DamagedOfType(e),
        None => TargetFilter::Any,
    }
}

/// Whether any slot of `player`'s side passes the filter.
pub open spec fn spec_any_eligible(s: StateV, player: int, filter: TargetFilter) -> bool {
    exists|i: int| 0 <= i < 4 && spec_slot_eligible(s, player, i, filter)
}

/// Pushes a sub-decision frame for `actor` offering to heal `amount` on each
/// eligible Pokemon; pushes nothing when no Pokemon is eligible.
pub fn inner_healing_effect_safe(
    state: &mut State,
    action: &Action,
    amount: u32,
    energy: Option<EnergyType>,
)
    requires
        old(state)@.wf(),
        action.actor < 2,
    ensures
        final(state)@.wf(),
        final(state)@ =~~= (StateV {
            move_generation_stack: final(state)@.move_generation_stack,
            ..old(state)@
        }),
        final(state)@.same_card_counts(old(state)@),
        spec_any_eligible(old(state)@, action.actor as int, spec_heal_filter(energy)) ==> {
            let stack = final(state)@.move_generation_stack;
            let old_stack = old(state)@.move_generation_stack;
            &&& stack.len() == old_stack.len() + 1
            &&& stack.take(old_stack.len() as int) == old_stack
            &&& spec_heal_frame(
                old(state)@,
                stack.last(),
                action.actor,
                amount,
                spec_heal_filter(energy),
            )
        },
        !spec_any_eligible(old(state)@, action.actor as int, spec_heal_filter(energy))
            ==> final(state)@.move_generation_stack == old(state)@.move_generation_stack,
{
    let filter = match energy {
        Some(e) => TargetFilter::DamagedOfType(e),
        None => TargetFilter::Any,
    };
    let slots = eligible_slots(state, action.actor, 0, filter);
    if slots.len() == 0 {
        proof {
            if spec_any_eligible(old(state)@, action.actor as int, filter) {
                let i = choose|i: int|
                    0 <= i < 4 && spec_slot_eligible(old(state)@, action.actor as int, i, filter);
                assert(false);
            }
        }
        return ;
    }
    let mut opts: Vec<SimpleAction> = Vec::new();
    let mut k: usize = 0;
    while k < slots.len()
        invariant
            action.actor < 2,
            k <= slots@.len(),
            opts@.len() == k,
            forall|j: int|
                0 <= j < slots@.len() ==> 0 <= #[trigger] slots@[j] < 4 && spec_slot_eligible(
                    old(state)@,
                    action.actor as int,
                    slots@[j] as int,
                    filter,
                ),
            forall|j: int|
                0 <= j < k ==> spec_is_heal_option(
                    old(state)@,
                    action.actor,
                    amount,
                    filter,
                    #[trigger] opts@[j],
                ),
            forall|j: int|
                0 <= j < k ==> spec_heal_option_slot(#[trigger] opts@[j]) == slots@[j] as int,
            *state == *old(state),
        decreases slots@.len() - k,
    {
        opts.push(SimpleAction::Heal { in_play_idx: slots[k], amount });
        k += 1;
    }
    let ghost pre_stack = state@.move_generation_stack;
    let ghost opts_view = opts@;
    state.move_generation_stack.push((action.actor, opts));
    proof {
        assert(state@.move_generation_stack =~~= pre_stack.push((action.actor, opts_view)));
        assert(state@.move_generation_stack.take(pre_stack.len() as int) =~~= pre_stack);
        assert(state@ =~~= (StateV {
            move_generation_stack: state@.move_generation_stack,
            ..old(state)@
        }));
        assert(state@.move_generation_stack.last().1 == opts_view);
        let i0 = slots@[0];
        assert(spec_slot_eligible(old(state)@, action.actor as int, i0 as int, filter));
        assert forall|i: int|
            0 <= i < 4 && spec_slot_eligible(old(state)@, action.actor as int, i, filter)
            implies exists|k: int|
            0 <= k < opts_view.len() && spec_heal_option_slot(#[trigger] opts_view[k]) == i by {
            let k0 = choose|k: int| 0 <= k < slots@.len() && (#[trigger] slots@[k]) == i;
            assert(spec_heal_option_slot(opts_view[k0]) == i);
        }
    }
}


/// What a pushed sub-decision offers for one eligible slot.
#[derive(Debug, Clone, Copy, PartialEq, Eq, Structural)]
pub enum FrameKind {
    /// Move the Pokemon in the slot to the active spot.
    Activate,
    /// Attach the given tool to the Pokemon in the slot.
    Tool(ToolId),
    /// Attach this many Water energy to the Pokemon in the slot.
    WaterEnergy(u32),
}

/// One entry of a targeting frame: the prescribed move on an eligible slot.
pub open spec fn spec_is_target_option(
    s_old: StateV,
    player: usize,
    filter: TargetFilter,
    kind: FrameKind,
    a: SimpleAction,
) -> bool {
    match kind {
        FrameKind::Activate => a matches SimpleAction::Activate { in_play_idx }
            && spec_slot_eligible(s_old, player as int, in_play_idx as int, filter),
        FrameKind::Tool(tool) => a matches SimpleAction::AttachTool { in_play_idx, tool_id }
            && tool_id == tool && spec_slot_eligible(
            s_old,
            player as int,
            in_play_idx as int,
            filter,
        ),
        FrameKind::WaterEnergy(amount) => a matches SimpleAction::Attach {
            attachments,
            is_turn_energy,
        } && !is_turn_energy && attachments.len() == 1 && attachments[0].0 == amount
            && attachments[0].1 == EnergyType::Water && spec_slot_eligible(
            s_old,
            player as int,
            attachments[0].2 as int,
            filter,
        ),
    }
}

/// The slot a targeting entry aims at, given the frame's kind.
pub open spec fn spec_option_slot(kind: FrameKind, a: SimpleAction) -> int {
    match (kind, a) {
        (FrameKind::Activate, SimpleAction::Activate { in_play_idx }) => in_play_idx as int,
        (FrameKind::Tool(_), SimpleAction::AttachTool { in_play_idx, .. }) => in_play_idx as int,
        (FrameKind::WaterEnergy(_), SimpleAction::Attach { attachments, .. }) => if attachments.len()
            == 1 {
            attachments[0].2 as int
        } else {
            -1
        },
        _ => -1,
    }
}

/// A sub-decision frame for `target_player`: every entry is the prescribed
/// move on one of their eligible slots, and every eligible slot from
/// `from_idx` on has an entry.
pub open spec fn spec_target_frame(
    s_old: StateV,
    frame: (usize, Seq<SimpleAction>),
    target_player: usize,
    from_idx: usize,
    filter: TargetFilter,
    kind: FrameKind,
) -> bool {
    &&& frame.0 == target_player
    &&& forall|k: int|
        0 <= k < frame.1.len() ==> spec_is_target_option(
            s_old,
            target_player,
            filter,
            kind,
            #[trigger] frame.1[k],
        )
    &&& forall|i: int|
        from_idx <= i < 4 && spec_slot_eligible(s_old, target_player as int, i, filter)
            ==> exists|k: int|
            0 <= k < frame.1.len() && spec_option_slot(kind, #[trigger] frame.1[k]) == i
}

/// Builds and pushes a sub-decision frame for `target_player`: one entry per
/// eligible slot from `from_idx` on. Without `push_if_empty`, no frame is
/// pushed when no slot is eligible; with it, an empty frame is pushed, which
/// the driver later drops as a sub-decision without a legal reply.
pub(crate) fn push_target_frame(
    state: &mut State,
    target_player: usize,
    from_idx: usize,
    filter: TargetFilter,
    kind: FrameKind,
    push_if_empty: bool,
)
    requires
        old(state)@.wf(),
        target_player < 2,
        from_idx <= 4,
    ensures
        final(state)@.wf(),
        final(state)@ =~~= (StateV {
            move_generation_stack: final(state)@.move_generation_stack,
            ..old(state)@
        }),
        final(state)@.same_card_counts(old(state)@),
        ({
            let stack = final(state)@.move_generation_stack;
            let old_stack = old(state)@.move_generation_stack;
            let pushed = push_if_empty || exists|i: int|
                from_idx <= i < 4 && spec_slot_eligible(old(state)@, target_player as int, i, filter);
            if pushed {
                &&& stack.len() == old_stack.len() + 1
                &&& stack.take(old_stack.len() as int) == old_stack
                &&& spec_target_frame(
                    old(state)@,
                    stack.last(),
                    target_player,
                    from_idx,
                    filter,
                    kind,
                )
            } else {
                stack == old_stack
            }
        }),
{
    let slots = eligible_slots(state, target_player, from_idx, filter);
    if slots.len() == 0 && !push_if_empty {
        proof {
            if exists|i: int|
                from_idx <= i < 4 && spec_slot_eligible(
                    old(state)@,
                    target_player as int,
                    i,
                    filter,
                ) {
                let i = choose|i: int|
                    from_idx <= i < 4 && spec_slot_eligible(
                        old(state)@,
                        target_player as int,
                        i,
                        filter,
                    );
                assert(false);
            }
        }
        return ;
    }
    let mut opts: Vec<SimpleAction> = Vec::new();
    let mut k: usize = 0;
    while k < slots.len()
        invariant
            target_player < 2,
            k <= slots@.len(),
            opts@.len() == k,
            forall|j: int|
                0 <= j < slots@.len() ==> 0 <= #[trigger] slots@[j] < 4 && spec_slot_eligible(
                    old(state)@,
                    target_player as int,
                    slots@[j] as int,
                    filter,
                ),
            forall|j: int|
                0 <= j < k ==> spec_is_target_option(
                    old(state)@,
                    target_player,
                    filter,
                    kind,
                    #[trigger] opts@[j],
                ),
            forall|j: int|
                0 <= j < k ==> spec_option_slot(kind, #[trigger] opts@[j]) == slots@[j] as int,
            *state == *old(state),
        decreases slots@.len() - k,
    {
        let idx = slots[k];
        let opt = match kind {
            FrameKind::Activate => SimpleAction::Activate { in_play_idx: idx },
            FrameKind::Tool(tool) => SimpleAction::AttachTool { in_play_idx: idx, tool_id: tool },
            FrameKind::WaterEnergy(amount) => {
                let mut attachments: Vec<(u32, EnergyType, usize)> = Vec::new();
                attachments.push((amount, EnergyType::Water, idx));
                SimpleAction::Attach { attachments, is_turn_energy: false }
            },
        };
        opts.push(opt);
        k += 1;
    }
    let ghost pre_stack = state@.move_generation_stack;
    let ghost opts_view = opts@;
    state.move_generation_stack.push((target_player, opts));
    proof {
        assert(state@.move_generation_stack =~~= pre_stack.push((target_player, opts_view)));
        assert(state@.move_generation_stack.take(pre_stack.len() as int) =~~= pre_stack);
        assert(state@ =~~= (StateV {
            move_generation_stack: state@.move_generation_stack,
            ..old(state)@
        }));
        assert(state@.move_generation_stack.last().1 == opts_view);
        if slots@.len() > 0 {
            let i0 = slots@[0];
            assert(spec_slot_eligible(old(state)@, target_player as int, i0 as int, filter));
        }
        assert forall|i: int|
            from_idx <= i < 4 && spec_slot_eligible(old(state)@, target_player as int, i, filter)
            implies exists|k: int|
            0 <= k < opts_view.len() && spec_option_slot(kind, #[trigger] opts_view[k]) == i by {
            let k0 = choose|k: int| 0 <= k < slots@.len() && (#[trigger] slots@[k]) == i;
            assert(spec_option_slot(kind, opts_view[k0]) == i);
        }
    }
}

/// Potion offers to heal twenty on any of the actor's Pokemon.
pub fn potion_effect_safe(state: &mut State, action: &Action)
    requires
        old(state)@.wf(),
        action.actor < 2,
    ensures
        final(state)@.wf(),
        final(state)@.same_card_counts(old(state)@),
        final(state)@ =~~= (StateV {
            move_generation_stack: final(state)@.move_generation_stack,
            ..old(state)@
        }),
        spec_any_eligible(old(state)@, action.actor as int, TargetFilter::Any) ==> {
            let stack = final(state)@.move_generation_stack;
            let old_stack = old(state)@.move_generation_stack;
            &&& stack.len() == old_stack.len() + 1
            &&& stack.take(old_stack.len() as int) == old_stack
            &&& spec_heal_frame(old(state)@, stack.last(), action.actor, 20, TargetFilter::Any)
        },
        !spec_any_eligible(old(state)@, action.actor as int, TargetFilter::Any) ==> final(state)@.move_generation_stack == old(state)@.move_generation_stack,
{
    inner_healing_effect_safe(state, action, 20, None);
}

/// Erika offers to heal fifty on one of the actor's damaged Grass Pokemon.
pub fn erika_effect_safe(state: &mut State, action: &Action)
    requires
        old(state)@.wf(),
        action.actor < 2,
    ensures
        final(state)@.wf(),
        final(state)@.same_card_counts(old(state)@),
        final(state)@ =~~= (StateV {
            move_generation_stack: final(state)@.move_generation_stack,
            ..old(state)@
        }),
        spec_any_eligible(
            old(state)@,
            action.actor as int,
            TargetFilter::DamagedOfType(EnergyType::Grass),
        ) ==> {
            let stack = final(state)@.move_generation_stack;
            let old_stack = old(state)@.move_generation_stack;
            &&& stack.len() == old_stack.len() + 1
            &&& stack.take(old_stack.len() as int) == old_stack
            &&& spec_heal_frame(
                old(state)@,
                stack.last(),
                action.actor,
                50,
                TargetFilter::DamagedOfType(EnergyType::Grass),
            )
        },
        !spec_any_eligible(
            old(state)@,
            action.actor as int,
            TargetFilter::DamagedOfType(EnergyType::Grass),
        ) ==> final(state)@.move_generation_stack == old(state)@.move_generation_stack,
{
    inner_healing_effect_safe(state, action, 50, Some(EnergyType::Grass));
}

/// Koga offers to bring one of the actor's poisoned Pokemon to the active
/// spot; nothing is offered when none is poisoned.
pub fn koga_effect_safe(state: &mut State, action: &Action)
    requires
        old(state)@.wf(),
        action.actor < 2,
    ensures
        final(state)@.wf(),
        final(state)@.same_card_counts(old(state)@),
        final(state)@ =~~= (StateV {
            move_generation_stack: final(state)@.move_generation_stack,
            ..old(state)@
        }),
        ({
            let stack = final(state)@.move_generation_stack;
            let old_stack = old(state)@.move_generation_stack;
            if exists|i: int|
                0 <= i < 4 && spec_slot_eligible(
                    old(state)@,
                    action.actor as int,
                    i,
                    TargetFilter::Poisoned,
                ) {
                &&& stack.len() == old_stack.len() + 1
                &&& stack.take(old_stack.len() as int) == old_stack
                &&& spec_target_frame(
                    old(state)@,
                    stack.last(),
                    action.actor,
                    0,
                    TargetFilter::Poisoned,
                    FrameKind::Activate,
                )
            } else {
                stack == old_stack
            }
        }),
{
    push_target_frame(state, action.actor, 0, TargetFilter::Poisoned, FrameKind::Activate, false);
}

/// Giovanni and the one-turn effect items record the played card as an
/// effect on the current turn.
pub fn turn_effect_safe(state: &mut State, action: &Action)
    requires
        old(state)@.wf(),
    ensures
        final(state)@.wf(),
        final(state)@.same_card_counts(old(state)@),
        final(state)@ =~~= (StateV { turn_effects: final(state)@.turn_effects, ..old(state)@ }),
        action.action matches SimpleAction::Play { trainer_card } ==> forall|u: u8|
            spec_effect_views_at(final(state)@, u) == if u == old(state)@.turn_count {
                spec_effect_views_at(old(state)@, u).push(
                    crate::types::CardV::Trainer(trainer_card@),
                )
            } else {
                spec_effect_views_at(old(state)@, u)
            },
{
    match &action.action {
        SimpleAction::Play { trainer_card } => {
            let card = Card::Trainer(trainer_card.clone());
            state.add_turn_effect(card, 0);
        },
        _ => {},
    }
}

/// Giovanni grants this turn's attacks their bonus damage by recording the
/// card as a current-turn effect.
pub fn giovanni_effect_safe(state: &mut State, action: &Action)
    requires
        old(state)@.wf(),
    ensures
        final(state)@.wf(),
        final(state)@.same_card_counts(old(state)@),
        final(state)@ =~~= (StateV { turn_effects: final(state)@.turn_effects, ..old(state)@ }),
{
    turn_effect_safe(state, action);
}

/// Sabrina forces the opponent to pick a new active from their bench; the
/// frame is pushed even when the bench is empty, and then dropped by the
/// driver as a sub-decision without a legal reply.
pub fn sabrina_effect_safe(state: &mut State, action: &Action)
    requires
        old(state)@.wf(),
        action.actor < 2,
    ensures
        final(state)@.wf(),
        final(state)@.same_card_counts(old(state)@),
        final(state)@ =~~= (StateV {
            move_generation_stack: final(state)@.move_generation_stack,
            ..old(state)@
        }),
        final(state)@.move_generation_stack.len() == old(state)@.move_generation_stack.len() + 1,
        spec_target_frame(
            old(state)@,
            final(state)@.move_generation_stack.last(),
            (1 - action.actor as int) as usize,
            1,
            TargetFilter::Any,
            FrameKind::Activate,
        ),
{
    let opponent = (action.actor + 1) % 2;
    push_target_frame(state, opponent, 1, TargetFilter::Any, FrameKind::Activate, true);
}

/// Cyrus forces in one of the opponent's damaged benched Pokemon; the frame
/// is pushed even when none qualifies, and then dropped by the driver.
pub fn cyrus_effect_safe(state: &mut State, action: &Action)
    requires
        old(state)@.wf(),
        action.actor < 2,
    ensures
        final(state)@.wf(),
        final(state)@.same_card_counts(old(state)@),
        final(state)@ =~~= (StateV {
            move_generation_stack: final(state)@.move_generation_stack,
            ..old(state)@
        }),
        final(state)@.move_generation_stack.len() == old(state)@.move_generation_stack.len() + 1,
        spec_target_frame(
            old(state)@,
            final(state)@.move_generation_stack.last(),
            (1 - action.actor as int) as usize,
            1,
            TargetFilter::Damaged,
            FrameKind::Activate,
        ),
{
    let opponent = (action.actor + 1) % 2;
    push_target_frame(state, opponent, 1, TargetFilter::Damaged, FrameKind::Activate, true);
}

/// A tool card offers to attach itself to one of the actor's Pokemon that
/// carries no tool yet.
pub fn attach_tool_safe(state: &mut State, action: &Action)
    requires
        old(state)@.wf(),
        action.actor < 2,
    ensures
        final(state)@.wf(),
        final(state)@.same_card_counts(old(state)@),
        final(state)@ =~~= (StateV {
            move_generation_stack: final(state)@.move_generation_stack,
            ..old(state)@
        }),
        ({
            let stack = final(state)@.move_generation_stack;
            let old_stack = old(state)@.move_generation_stack;
            if (action.action matches SimpleAction::Play { trainer_card }
                && crate::tool_ids::spec_tool_of_id(trainer_card.numeric_id) matches Some(tool)
                && exists|i: int|
                0 <= i < 4 && spec_slot_eligible(
                    old(state)@,
                    action.actor as int,
                    i,
                    TargetFilter::WithoutTool,
                )) {
                &&& stack.len() == old_stack.len() + 1
                &&& stack.take(old_stack.len() as int) == old_stack
                &&& spec_target_frame(
                    old(state)@,
                    stack.last(),
                    action.actor,
                    0,
                    TargetFilter::WithoutTool,
                    FrameKind::Tool(
                        crate::tool_ids::spec_tool_of_id(
                            action.action->Play_trainer_card.numeric_id,
                        )->0,
                    ),
                )
            } else {
                stack == old_stack
            }
        }),
{
    match &action.action {
        SimpleAction::Play { trainer_card } => {
            match ToolId::from_trainer_card(trainer_card) {
                Some(tool_id) => {
                    push_target_frame(
                        state,
                        action.actor,
                        0,
                        TargetFilter::WithoutTool,
                        FrameKind::Tool(tool_id),
                        false,
                    );
                },
                None => {},
            }
        },
        _ => {},
    }
}

/// Misty's resolution for a given number of heads: the actor chooses which
/// of their Water Pokemon receives that many Water energy.
pub fn apply_misty_heads(state: &mut State, action: &Action, heads: u32)
    requires
        old(state)@.wf(),
        action.actor < 2,
    ensures
        final(state)@.wf(),
        final(state)@.same_card_counts(old(state)@),
        final(state)@ =~~= (StateV {
            move_generation_stack: final(state)@.move_generation_stack,
            ..old(state)@
        }),
        ({
            let stack = final(state)@.move_generation_stack;
            let old_stack = old(state)@.move_generation_stack;
            if exists|i: int|
                0 <= i < 4 && spec_slot_eligible(
                    old(state)@,
                    action.actor as int,
                    i,
                    TargetFilter::OfType(EnergyType::Water),
                ) {
                &&& stack.len() == old_stack.len() + 1
                &&& stack.take(old_stack.len() as int) == old_stack
                &&& spec_target_frame(
                    old(state)@,
                    stack.last(),
                    action.actor,
                    0,
                    TargetFilter::OfType(EnergyType::Water),
                    FrameKind::WaterEnergy(heads),
                )
            } else {
                stack == old_stack
            }
        }),
{
    push_target_frame(
        state,
        action.actor,
        0,
        TargetFilter::OfType(EnergyType::Water),
        FrameKind::WaterEnergy(heads),
        false,
    );
}

/// Poke Ball's commit: one Basic, chosen at random among those in the deck,
/// moves to the hand; the deck is then shuffled. The cards a player accounts
/// for stay the same; only their split between deck and hand moves.
pub fn pokeball_commit(
    rng: &mut rand::rngs::StdRng,
    state: &mut State,
    acting_player: usize,
)
    requires
        old(state)@.wf(),
        acting_player < 2,
    ensures
        final(state)@.wf(),
        final(state)@.same_card_counts(old(state)@),
        final(state)@ =~~= (StateV {
            hands: final(state)@.hands,
            decks: final(state)@.decks,
            ..old(state)@
        }),
        final(state)@.hands[1 - acting_player as int] == old(state)@.hands[1 - acting_player
            as int],
        final(state)@.decks[1 - acting_player as int] == old(state)@.decks[1 - acting_player
            as int],
        final(state)@.hands[acting_player as int].len() + final(state)@.decks[acting_player as int].cards.len() == old(state)@.hands[acting_player as int].len()
            + old(state)@.decks[acting_player as int].cards.len(),
        ({
            let p = acting_player as int;
            let old_deck = old(state)@.decks[p].cards;
            if exists|j: int| 0 <= j < old_deck.len() && (#[trigger] old_deck[j]).spec_is_basic() {
                exists|c: Card|
                    {
                        &&& (#[trigger] c.spec_is_basic())
                        &&& old_deck.to_multiset().contains(c)
                        &&& final(state)@.hands[p] == old(state)@.hands[p].push(c)
                        &&& final(state)@.decks[p].cards.to_multiset()
                            == old_deck.to_multiset().remove(c)
                    }
            } else {
                &&& final(state)@.hands[p] == old(state)@.hands[p]
                &&& final(state)@.decks[p].cards.to_multiset() == old_deck.to_multiset()
            }
        }),
{
    broadcast use vstd::seq_lib::group_to_multiset_ensures, vstd::seq_lib::to_multiset_remove;

    let ghost pre = state@;
    let ghost old_deck = pre.decks[acting_player as int].cards;
    let deck_len = state.decks[acting_player].cards.len();
    let mut basics: Vec<usize> = Vec::new();
    let mut i: usize = 0;
    while i < deck_len
        invariant
            *state == *old(state),
            acting_player < 2,
            old(state)@.wf(),
            old_deck == state@.decks[acting_player as int].cards,
            deck_len == old_deck.len(),
            i <= deck_len,
            forall|k: int|
                0 <= k < basics@.len() ==> (#[trigger] basics@[k]) < deck_len && old_deck[basics@[k] as int].spec_is_basic(),
            forall|j: int|
                0 <= j < i && (#[trigger] old_deck[j]).spec_is_basic() ==> exists|k: int|
                    0 <= k < basics@.len() && (#[trigger] basics@[k]) == j,
        decreases deck_len - i,
    {
        let ghost pre_b = basics@;
        if crate::deck::is_basic(&state.decks[acting_player].cards[i]) {
            basics.push(i);
        }
        proof {
            assert forall|j: int|
                0 <= j < i + 1 && (#[trigger] old_deck[j]).spec_is_basic() implies exists|k: int|
                0 <= k < basics@.len() && (#[trigger] basics@[k]) == j by {
                if j < i {
                    let k0 = choose|k: int| 0 <= k < pre_b.len() && (#[trigger] pre_b[k]) == j;
                    assert(basics@[k0] == j);
                } else {
                    assert(basics@[basics@.len() - 1] == i);
                }
            }
        }
        i += 1;
    }
    if basics.len() > 0 {
        let pick = rand_index(rng, basics.len());
        let idx = basics[pick];
        let ghost moved = old_deck[idx as int];
        let card = state.decks[acting_player].cards.remove(idx);
        state.hands[acting_player].push(card);
        proof {
            assert(state@.hands =~~= pre.hands.update(
                acting_player as int,
                state@.hands[acting_player as int],
            ));
            assert(state@.decks =~~= pre.decks.update(
                acting_player as int,
                state@.decks[acting_player as int],
            ));
            assert(state@ =~~= (StateV { hands: state@.hands, decks: state@.decks, ..pre }));
            assert(state@.decks[acting_player as int].cards == old_deck.remove(idx as int));
            assert(state@.decks[acting_player as int].cards.to_multiset()
                == old_deck.to_multiset().remove(moved));
            assert(old_deck.contains(moved));
        }
        let ghost mid = state@;
        state.decks[acting_player].shuffle(false, rng);
        proof {
            let p = acting_player as int;
            assert(state@.decks =~~= mid.decks.update(p, state@.decks[p]));
            assert(state@ =~~= (StateV { decks: state@.decks, ..mid }));
            assert(moved.spec_is_basic());
            assert(old_deck.to_multiset().contains(moved));
            assert(state@.hands[p] == old(state)@.hands[p].push(moved));
            assert(state@.decks[p].cards.to_multiset() == old_deck.to_multiset().remove(moved));
        }
    } else {
        proof {
            if exists|j: int| 0 <= j < old_deck.len() && (#[trigger] old_deck[j]).spec_is_basic() {
                let j = choose|j: int|
                    0 <= j < old_deck.len() && (#[trigger] old_deck[j]).spec_is_basic();
                assert(false);
            }
        }
        let ghost mid = state@;
        state.decks[acting_player].shuffle(false, rng);
        proof {
            assert(state@.decks =~~= mid.decks.update(
                acting_player as int,
                state@.decks[acting_player as int],
            ));
            assert(state@ =~~= (StateV { decks: state@.decks, ..mid }));
        }
    }
}

/// Red Card's commit: the opponent shuffles their whole hand into their deck
/// and three draws are queued for them, resolved one frame at a time.
pub fn red_card_commit(
    rng: &mut rand::rngs::StdRng,
    state: &mut State,
    acting_player: usize,
)
    requires
        old(state)@.wf(),
        acting_player < 2,
    ensures
        final(state)@.wf(),
        final(state)@.same_card_counts(old(state)@),
        final(state)@ =~~= (StateV {
            hands: final(state)@.hands,
            decks: final(state)@.decks,
            move_generation_stack: final(state)@.move_generation_stack,
            ..old(state)@
        }),
        ({
            let opp = 1 - acting_player as int;
            &&& final(state)@.hands[opp].len() == 0
            &&& final(state)@.decks[opp].cards.len() == old(state)@.decks[opp].cards.len() + old(state)@.hands[opp].len()
            &&& final(state)@.hands[acting_player as int] == old(state)@.hands[acting_player
                as int]
            &&& final(state)@.decks[acting_player as int] == old(state)@.decks[acting_player
                as int]
            &&& final(state)@.move_generation_stack == old(state)@.move_generation_stack.push(
                ((1 - acting_player) as usize, seq![SimpleAction::DrawCard]),
            ).push(((1 - acting_player) as usize, seq![SimpleAction::DrawCard])).push(
                ((1 - acting_player) as usize, seq![SimpleAction::DrawCard]),
            )
        }),
{
    let opponent = (acting_player + 1) % 2;
    let ghost pre = state@;
    let mut returned: Vec<Card> = Vec::new();
    core::mem::swap(&mut state.hands[opponent], &mut returned);
    state.decks[opponent].cards.append(&mut returned);
    proof {
        assert(state@.hands =~~= pre.hands.update(opponent as int, Seq::<Card>::empty()));
        assert(state@.decks =~~= pre.decks.update(
            opponent as int,
            crate::deck::DeckV {
                cards: pre.decks[opponent as int].cards + pre.hands[opponent as int],
                ..pre.decks[opponent as int]
            },
        ));
        assert(state@ =~~= (StateV { hands: state@.hands, decks: state@.decks, ..pre }));
    }
    let ghost mid = state@;
    state.decks[opponent].shuffle(false, rng);
    proof {
        assert(state@.decks =~~= mid.decks.update(
            opponent as int,
            state@.decks[opponent as int],
        ));
        assert(state@ =~~= (StateV { decks: state@.decks, ..mid }));
    }
    state.queue_draw_action(opponent);
    state.queue_draw_action(opponent);
    state.queue_draw_action(opponent);
}

/// Professor's Research's commit: two draws are queued for the actor,
/// resolved one frame at a time, so the forecast reveals nothing.
pub fn professor_research_commit(state: &mut State, acting_player: usize)
    requires
        old(state)@.wf(),
        acting_player < 2,
    ensures
        final(state)@.wf(),
        final(state)@.same_card_counts(old(state)@),
        final(state)@ =~~= (StateV {
            move_generation_stack: final(state)@.move_generation_stack,
            ..old(state)@
        }),
        final(state)@.move_generation_stack == old(state)@.move_generation_stack.push(
            (acting_player, seq![SimpleAction::DrawCard]),
        ).push((acting_player, seq![SimpleAction::DrawCard])),
{
    state.queue_draw_action(acting_player);
    state.queue_draw_action(acting_player);
}

/// Mythical Slab's commit: the top card goes to the hand if it is a Psychic
/// Pokemon, and under the deck otherwise.
pub fn mythical_slab_commit(state: &mut State, acting_player: usize)
    requires
        old(state)@.wf(),
        acting_player < 2,
    ensures
        final(state)@.wf(),
        final(state)@.same_card_counts(old(state)@),
        final(state)@ =~~= (StateV {
            hands: final(state)@.hands,
            decks: final(state)@.decks,
            ..old(state)@
        }),
        ({
            let p = acting_player as int;
            let deck = old(state)@.decks[p].cards;
            if deck.len() == 0 {
                final(state)@ =~~= old(state)@
            } else if deck[0].spec_type() == Some(EnergyType::Psychic) {
                final(state)@.hands[p] == old(state)@.hands[p].push(deck[0]) && final(state)@.decks[p].cards == deck.drop_first()
            } else {
                final(state)@.decks[p].cards == deck.drop_first().push(deck[0]) && final(state)@.hands[p] == old(state)@.hands[p]
            }
        }),
{
    let ghost pre = state@;
    if state.decks[acting_player].cards.len() == 0 {
        proof {
            assert(state@ =~~= pre);
        }
        return ;
    }
    if state.decks[acting_player].cards[0].is_psychic_type() {
        state.maybe_draw_card(acting_player);
    } else {
        let card = state.decks[acting_player].cards.remove(0);
        state.decks[acting_player].cards.push(card);
        proof {
            assert(state@.decks =~~= pre.decks.update(
                acting_player as int,
                crate::deck::DeckV {
                    cards: pre.decks[acting_player as int].cards.drop_first().push(
                        pre.decks[acting_player as int].cards[0],
                    ),
                    ..pre.decks[acting_player as int]
                },
            ));
            assert(state@ =~~= (StateV { decks: state@.decks, ..pre }));
        }
    }
}

} // verus!
